//! Random password generation from a configurable pool of character classes.
//!
//! A [`PasswordGenerator`] accumulates a selection of character classes
//! (lowercase letters, uppercase letters, symbols, numbers) and a target
//! length through chained configuration calls, then produces a password by
//! drawing characters uniformly, with replacement, from the concatenation of
//! the enabled classes' alphabets.

use rand::Rng;
use vstd::prelude::*;

verus! {

/// The alphabet contributed by the lowercase class.
pub open spec fn lowercase_alphabet() -> Seq<char> {
    "abcdefghijklmnopqrstuvwxyz"@
}

/// The alphabet contributed by the uppercase class.
pub open spec fn uppercase_alphabet() -> Seq<char> {
    "ABCDEFGHIJKLMNOPQRSTUVWXYZ"@
}

/// The alphabet contributed by the symbols class.
pub open spec fn symbol_alphabet() -> Seq<char> {
    "!@#$%^&*()_+-={}[]\":;'?><,./~`|\\"@
}

/// The alphabet contributed by the numbers class.
pub open spec fn number_alphabet() -> Seq<char> {
    "0123456789"@
}

/// Why a password could not be generated.
#[derive(Debug, PartialEq, Eq, Structural)]
pub enum PasswordGenerationError {
    /// No character class was enabled.
    MissingContent,
    /// The configured length is zero or was never set to a positive value.
    ZeroLengthPassword,
}

impl PasswordGenerationError {
    /// A human-readable description of the error.
    pub fn message(&self) -> (r: String)
        ensures
            *self == PasswordGenerationError::MissingContent ==> r@
                == "missing possible password contents"@,
            *self == PasswordGenerationError::ZeroLengthPassword ==> r@
                == "password must be more than 0 elements"@,
    {
        match self {
            PasswordGenerationError::MissingContent => String::from_str(
                "missing possible password contents",
            ),
            PasswordGenerationError::ZeroLengthPassword => String::from_str(
                "password must be more than 0 elements",
            ),
        }
    }
}

/// A one-shot password generator: enable character classes, set a length,
/// then consume the configuration with [`PasswordGenerator::generate`].
pub struct PasswordGenerator {
    lowercase: bool,
    uppercase: bool,
    symbols: bool,
    numbers: bool,
    /// `None` records an invalid (zero or unset) length.
    length: Option<usize>,
}

impl PasswordGenerator {
    /// Whether the lowercase class is enabled.
    pub closed spec fn spec_lowercase(self) -> bool {
        self.lowercase
    }

    /// Whether the uppercase class is enabled.
    pub closed spec fn spec_uppercase(self) -> bool {
        self.uppercase
    }

    /// Whether the symbols class is enabled.
    pub closed spec fn spec_symbols(self) -> bool {
        self.symbols
    }

    /// Whether the numbers class is enabled.
    pub closed spec fn spec_numbers(self) -> bool {
        self.numbers
    }

    /// The configured length; `None` stands for an invalid length.
    pub closed spec fn spec_length(self) -> Option<usize> {
        self.length
    }

    /// A recorded length is always positive: zero is mapped to `None`.
    pub open spec fn wf(self) -> bool {
        self.spec_length() matches Some(n) ==> n > 0
    }

    /// At least one character class is enabled.
    pub open spec fn has_content(self) -> bool {
        self.spec_lowercase() || self.spec_uppercase() || self.spec_symbols()
            || self.spec_numbers()
    }

    /// The sampling pool: the concatenation, in the fixed order lowercase,
    /// uppercase, symbols, numbers, of the alphabets of the enabled classes.
    pub open spec fn spec_pool(self) -> Seq<char> {
        (if self.spec_lowercase() {
            lowercase_alphabet()
        } else {
            Seq::<char>::empty()
        }) + (if self.spec_uppercase() {
            uppercase_alphabet()
        } else {
            Seq::<char>::empty()
        }) + (if self.spec_symbols() {
            symbol_alphabet()
        } else {
            Seq::<char>::empty()
        }) + (if self.spec_numbers() {
            number_alphabet()
        } else {
            Seq::<char>::empty()
        })
    }

    /// A fresh configuration: no classes enabled, default length 8.
    pub fn new() -> (r: Self)
        ensures
            !r.spec_lowercase(),
            !r.spec_uppercase(),
            !r.spec_symbols(),
            !r.spec_numbers(),
            r.spec_length() == Some(8usize),
            r.wf(),
    {
        PasswordGenerator {
            lowercase: false,
            uppercase: false,
            symbols: false,
            numbers: false,
            length: Some(8),
        }
    }

    /// Enables the lowercase class; everything else is unchanged.
    pub fn with_lowercase_chars(self) -> (r: Self)
        ensures
            r.spec_lowercase(),
            r.spec_uppercase() == self.spec_uppercase(),
            r.spec_symbols() == self.spec_symbols(),
            r.spec_numbers() == self.spec_numbers(),
            r.spec_length() == self.spec_length(),
    {
        PasswordGenerator {
            lowercase: true,
            uppercase: self.uppercase,
            symbols: self.symbols,
            numbers: self.numbers,
            length: self.length,
        }
    }

    /// Enables the uppercase class; everything else is unchanged.
    pub fn with_uppercase_chars(self) -> (r: Self)
        ensures
            r.spec_lowercase() == self.spec_lowercase(),
            r.spec_uppercase(),
            r.spec_symbols() == self.spec_symbols(),
            r.spec_numbers() == self.spec_numbers(),
            r.spec_length() == self.spec_length(),
    {
        PasswordGenerator {
            lowercase: self.lowercase,
            uppercase: true,
            symbols: self.symbols,
            numbers: self.numbers,
            length: self.length,
        }
    }

    /// Enables the symbols class; everything else is unchanged.
    pub fn with_symbols(self) -> (r: Self)
        ensures
            r.spec_lowercase() == self.spec_lowercase(),
            r.spec_uppercase() == self.spec_uppercase(),
            r.spec_symbols(),
            r.spec_numbers() == self.spec_numbers(),
            r.spec_length() == self.spec_length(),
    {
        PasswordGenerator {
            lowercase: self.lowercase,
            uppercase: self.uppercase,
            symbols: true,
            numbers: self.numbers,
            length: self.length,
        }
    }

    /// Enables the numbers class; everything else is unchanged.
    pub fn with_numbers(self) -> (r: Self)
        ensures
            r.spec_lowercase() == self.spec_lowercase(),
            r.spec_uppercase() == self.spec_uppercase(),
            r.spec_symbols() == self.spec_symbols(),
            r.spec_numbers(),
            r.spec_length() == self.spec_length(),
    {
        PasswordGenerator {
            lowercase: self.lowercase,
            uppercase: self.uppercase,
            symbols: self.symbols,
            numbers: true,
            length: self.length,
        }
    }

    /// Sets the target length. Zero is recorded as an invalid length rather
    /// than clamped, so it is rejected later, at generation time.
    pub fn with_length(self, length: usize) -> (r: Self)
        ensures
            length == 0 ==> r.spec_length() is None,
            length > 0 ==> r.spec_length() == Some(length),
            r.spec_lowercase() == self.spec_lowercase(),
            r.spec_uppercase() == self.spec_uppercase(),
            r.spec_symbols() == self.spec_symbols(),
            r.spec_numbers() == self.spec_numbers(),
            r.wf(),
    {
        PasswordGenerator {
            lowercase: self.lowercase,
            uppercase: self.uppercase,
            symbols: self.symbols,
            numbers: self.numbers,
            length: if length == 0 {
                None
            } else {
                Some(length)
            },
        }
    }

    /// Consumes the configuration and produces a password, or says why none
    /// can be produced. The length is validated first, then the class
    /// selection; a password has exactly the configured length and draws
    /// every character from the pool of the enabled classes.
    pub fn generate(self) -> (r: Result<String, PasswordGenerationError>)
        ensures
            self.spec_length() is None ==> r == Err::<String, PasswordGenerationError>(
                PasswordGenerationError::ZeroLengthPassword,
            ),
            self.spec_length() is Some && !self.has_content() ==> r == Err::<
                String,
                PasswordGenerationError,
            >(PasswordGenerationError::MissingContent),
            self.spec_length() is Some && self.has_content() ==> (r matches Ok(p)
                && p@.len() == self.spec_length().unwrap() && (forall|i: int|
                0 <= i < p@.len() ==> self.spec_pool().contains(#[trigger] p@[i]))),
    {
        let length: usize = match self.length {
            None => {
                return Err(PasswordGenerationError::ZeroLengthPassword);
            },
            Some(n) => n,
        };
        if !(self.lowercase || self.uppercase || self.symbols || self.numbers) {
            return Err(PasswordGenerationError::MissingContent);
        }
        let pool = self.build_pool();
        let pool_len = pool.as_str().unicode_len();
        proof {
            lemma_pool_len(self);
        }
        let mut password = String::new();
        let mut i: usize = 0;
        while i < length
            invariant
                i <= length,
                pool@ == self.spec_pool(),
                pool_len as nat == pool@.len(),
                pool_len > 0,
                password@.len() == i,
                forall|j: int| 0 <= j < i ==> self.spec_pool().contains(#[trigger] password@[j]),
            decreases length - i,
        {
            let idx = random_index(pool_len);
            let c = pool.as_str().get_char(idx);
            proof {
                assert(self.spec_pool().contains(c)) by {
                    assert(self.spec_pool()[idx as int] == c);
                }
            }
            push_char(&mut password, c);
            i = i + 1;
        }
        Ok(password)
    }

    /// Materialises the sampling pool of this configuration.
    fn build_pool(&self) -> (pool: String)
        ensures
            pool@ == self.spec_pool(),
    {
        let mut pool = String::new();
        if self.lowercase {
            pool.append("abcdefghijklmnopqrstuvwxyz");
        }
        if self.uppercase {
            pool.append("ABCDEFGHIJKLMNOPQRSTUVWXYZ");
        }
        if self.symbols {
            pool.append("!@#$%^&*()_+-={}[]\":;'?><,./~`|\\");
        }
        if self.numbers {
            pool.append("0123456789");
        }
        proof {
            assert(pool@ =~= self.spec_pool());
        }
        pool
    }
}

/// Relies on rand's `thread_rng` and `Rng::gen_range`: sampling from the
/// range `0..n` yields a value below `n`, and panics only when the range is
/// empty. Nothing more is assumed of the draw: any value below `n` may come
/// back on any call.
#[verifier::external_body]
fn random_index(n: usize) -> (r: usize)
    requires
        n > 0,
    ensures
        r < n,
{
    rand::thread_rng().gen_range(0..n)
}

/// Relies on `String::push`: it appends the given character to the end of
/// the string.
#[verifier::external_body]
fn push_char(s: &mut String, c: char)
    ensures
        final(s)@ == old(s)@.push(c),
{
    s.push(c);
}

/// How long the pool of a configuration is: each enabled class contributes
/// the length of its alphabet.
pub proof fn lemma_pool_len(g: PasswordGenerator)
    ensures
        g.spec_pool().len() == (if g.spec_lowercase() {
            26int
        } else {
            0int
        }) + (if g.spec_uppercase() {
            26int
        } else {
            0int
        }) + (if g.spec_symbols() {
            32int
        } else {
            0int
        }) + (if g.spec_numbers() {
            10int
        } else {
            0int
        }),
{
    reveal_strlit("abcdefghijklmnopqrstuvwxyz");
    reveal_strlit("ABCDEFGHIJKLMNOPQRSTUVWXYZ");
    reveal_strlit("!@#$%^&*()_+-={}[]\":;'?><,./~`|\\");
    reveal_strlit("0123456789");
}

/// With exactly one class enabled, the pool is that class's alphabet and
/// nothing else, so every generated character comes from that alphabet.
pub proof fn lemma_single_class_pool(g: PasswordGenerator)
    ensures
        g.spec_lowercase() && !g.spec_uppercase() && !g.spec_symbols() && !g.spec_numbers()
            ==> g.spec_pool() == lowercase_alphabet(),
        !g.spec_lowercase() && g.spec_uppercase() && !g.spec_symbols() && !g.spec_numbers()
            ==> g.spec_pool() == uppercase_alphabet(),
        !g.spec_lowercase() && !g.spec_uppercase() && g.spec_symbols() && !g.spec_numbers()
            ==> g.spec_pool() == symbol_alphabet(),
        !g.spec_lowercase() && !g.spec_uppercase() && !g.spec_symbols() && g.spec_numbers()
            ==> g.spec_pool() == number_alphabet(),
{
    if g.spec_lowercase() && !g.spec_uppercase() && !g.spec_symbols() && !g.spec_numbers() {
        assert(g.spec_pool() =~= lowercase_alphabet());
    }
    if !g.spec_lowercase() && g.spec_uppercase() && !g.spec_symbols() && !g.spec_numbers() {
        assert(g.spec_pool() =~= uppercase_alphabet());
    }
    if !g.spec_lowercase() && !g.spec_uppercase() && g.spec_symbols() && !g.spec_numbers() {
        assert(g.spec_pool() =~= symbol_alphabet());
    }
    if !g.spec_lowercase() && !g.spec_uppercase() && !g.spec_symbols() && g.spec_numbers() {
        assert(g.spec_pool() =~= number_alphabet());
    }
}

/// Every character of the lowercase alphabet is an ASCII lowercase letter.
pub proof fn lemma_lowercase_alphabet_ascii(c: char)
    requires
        lowercase_alphabet().contains(c),
    ensures
        'a' <= c <= 'z',
{
    reveal_strlit("abcdefghijklmnopqrstuvwxyz");
}

/// Every character of the uppercase alphabet is an ASCII uppercase letter.
pub proof fn lemma_uppercase_alphabet_ascii(c: char)
    requires
        uppercase_alphabet().contains(c),
    ensures
        'A' <= c <= 'Z',
{
    reveal_strlit("ABCDEFGHIJKLMNOPQRSTUVWXYZ");
}

/// Every character of the numbers alphabet is an ASCII decimal digit.
pub proof fn lemma_number_alphabet_ascii(c: char)
    requires
        number_alphabet().contains(c),
    ensures
        '0' <= c <= '9',
{
    reveal_strlit("0123456789");
}

/// With all four classes enabled the pool holds 94 characters, and a
/// character is in the pool exactly when it is in one of the four alphabets:
/// nothing outside their union can ever be generated.
pub proof fn lemma_full_pool(g: PasswordGenerator, c: char)
    requires
        g.spec_lowercase(),
        g.spec_uppercase(),
        g.spec_symbols(),
        g.spec_numbers(),
    ensures
        g.spec_pool().len() == 94,
        g.spec_pool().contains(c) <==> (lowercase_alphabet().contains(c)
            || uppercase_alphabet().contains(c) || symbol_alphabet().contains(c)
            || number_alphabet().contains(c)),
{
    lemma_pool_len(g);
    broadcast use vstd::seq_lib::lemma_seq_concat_contains_all_elements;

}

} // verus!
