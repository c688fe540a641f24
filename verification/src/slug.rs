//! Slugs: restricted identifier strings used as parts of on-disk filenames.
//!
//! A slug may hold only lowercase ASCII alphanumerics, underscore and
//! hyphen; it may not be empty and may not start with a hyphen.  The
//! separators `/`, `+` and `.` and the colon will never be valid slug
//! characters, so slugs can be concatenated into file names with those
//! separators.

use vstd::prelude::*;
use vstd::string::{StrSliceExecFns, StringExecFns};

verus! {

/// Characters which are good to use to separate slugs; guaranteed never to
/// overlap with the valid slug character set.
pub const SLUG_SEPARATOR_CHARS: &'static str = "/+.";

/// Error for an invalid slug.
#[derive(Debug, Clone, PartialEq, Eq, Hash)]
pub enum BadSlug {
    /// The slug contains a forbidden character.
    BadCharacter(char),
    /// The slug starts with a disallowed character.
    BadFirstCharacter(char),
    /// An empty slug was supplied where a nonempty one is required.
    EmptySlugNotAllowed,
}

/// `c` may appear in a slug: a lowercase ASCII letter, an ASCII digit,
/// underscore or hyphen.
pub open spec fn valid_slug_char(c: char) -> bool {
    ||| (97 <= c as u32 && c as u32 <= 122)  // 'a'..='z'
    ||| (48 <= c as u32 && c as u32 <= 57)  // '0'..='9'
    ||| c == '_'
    ||| c == '-'
}

/// `s` is a well-formed slug: nonempty, not starting with a hyphen, all
/// characters from the valid set.
pub open spec fn valid_slug(s: Seq<char>) -> bool {
    &&& s.len() > 0
    &&& s[0] != '-'
    &&& forall|i: int| 0 <= i < s.len() ==> valid_slug_char(#[trigger] s[i])
}

/// Index of the first character of `s` outside the valid set.
pub open spec fn first_invalid(s: Seq<char>) -> int
    decreases s.len(),
{
    if s.len() == 0 {
        0
    } else if !valid_slug_char(s[0]) {
        0
    } else {
        1 + first_invalid(s.subrange(1, s.len() as int))
    }
}

/// What the syntax check reports for `s`: the empty check, then the
/// first-character check, then the first invalid character if any.
pub open spec fn spec_check_syntax(s: Seq<char>) -> Result<(), BadSlug> {
    if s.len() == 0 {
        Err(BadSlug::EmptySlugNotAllowed)
    } else if s[0] == '-' {
        Err(BadSlug::BadFirstCharacter('-'))
    } else if exists|i: int| 0 <= i < s.len() && !valid_slug_char(#[trigger] s[i]) {
        Err(BadSlug::BadCharacter(s[first_invalid(s)]))
    } else {
        Ok(())
    }
}

/// If everything before `i` is valid and `s[i]` is not, then `i` is the
/// first invalid index.
proof fn lemma_first_invalid_at(s: Seq<char>, i: int)
    requires
        0 <= i < s.len(),
        !valid_slug_char(s[i]),
        forall|j: int| 0 <= j < i ==> valid_slug_char(#[trigger] s[j]),
    ensures
        first_invalid(s) == i,
    decreases i,
{
    if i == 0 {
    } else {
        lemma_first_invalid_at(s.subrange(1, s.len() as int), i - 1);
    }
}

/// Hook for platform-specific name restrictions; no name is forbidden on
/// this platform family.
pub fn check_forbidden(_s: &str) -> (r: Result<(), BadSlug>)
    ensures
        r is Ok,
{
    Ok(())
}

/// Check whether `s` would be valid as a slug.
///
/// This is the low-level check; usually [`Slug::new`] or [`SlugRef::new`] is
/// what a caller wants.
pub fn check_syntax(s: &str) -> (r: Result<(), BadSlug>)
    ensures
        r == spec_check_syntax(s@),
        r is Ok <==> valid_slug(s@),
{
    let n = s.unicode_len();
    if n == 0 {
        return Err(BadSlug::EmptySlugNotAllowed);
    }
    if s.get_char(0) == '-' {
        return Err(BadSlug::BadFirstCharacter('-'));
    }
    let mut i: usize = 0;
    while i < n
        invariant
            n == s@.len(),
            0 <= i <= n,
            s@[0] != '-',
            forall|j: int| 0 <= j < i ==> valid_slug_char(#[trigger] s@[j]),
        decreases n - i,
    {
        let c = s.get_char(i);
        let code = c as u32;
        let ok = (97 <= code && code <= 122) || (48 <= code && code <= 57) || c == '_' || c
            == '-';
        if !ok {
            proof {
                lemma_first_invalid_at(s@, i as int);
            }
            return Err(BadSlug::BadCharacter(c));
        }
        i += 1;
    }
    let forbidden = check_forbidden(s);
    match forbidden {
        Ok(()) => Ok(()),
        Err(e) => Err(e),
    }
}

/// An owned slug, checked for syntax.
#[derive(Debug)]
pub struct Slug {
    s: String,
}

impl View for Slug {
    type V = Seq<char>;

    closed spec fn view(&self) -> Seq<char> {
        self.s@
    }
}

impl Slug {
    /// Every slug that can be built satisfies the syntax check.
    pub open spec fn wf(self) -> bool {
        valid_slug(self@)
    }

    /// Make a `Slug` out of an owned `String`, if it has the correct syntax.
    pub fn new(s: String) -> (r: Result<Slug, BadSlug>)
        ensures
            r is Ok <==> valid_slug(s@),
            r is Ok ==> r->Ok_0@ == s@ && r->Ok_0.wf(),
            r is Err ==> spec_check_syntax(s@) == Result::<(), BadSlug>::Err(r->Err_0),
    {
        match check_syntax(s.as_str()) {
            Ok(()) => Ok(Slug { s }),
            Err(e) => Err(e),
        }
    }

    /// This slug as a string slice.
    pub fn as_str(&self) -> (r: &str)
        ensures
            r@ == self@,
    {
        self.s.as_str()
    }

    /// This slug as an owned string (its display form).
    pub fn into_string(self) -> (r: String)
        ensures
            r@ == self@,
    {
        self.s
    }
}

/// A borrowed slug, checked for syntax.
#[derive(Debug)]
pub struct SlugRef<'a> {
    s: &'a str,
}

impl<'a> View for SlugRef<'a> {
    type V = Seq<char>;

    closed spec fn view(&self) -> Seq<char> {
        self.s@
    }
}

impl<'a> SlugRef<'a> {
    /// Every slug reference that can be built satisfies the syntax check.
    pub open spec fn wf(self) -> bool {
        valid_slug(self@)
    }

    /// Make a `SlugRef` out of a `str`, if it has the correct syntax.
    pub fn new(s: &'a str) -> (r: Result<SlugRef<'a>, BadSlug>)
        ensures
            r is Ok <==> valid_slug(s@),
            r is Ok ==> r->Ok_0@ == s@ && r->Ok_0.wf(),
            r is Err ==> spec_check_syntax(s@) == Result::<(), BadSlug>::Err(r->Err_0),
    {
        match check_syntax(s) {
            Ok(()) => Ok(SlugRef { s }),
            Err(e) => Err(e),
        }
    }

    /// This slug as a string slice.
    pub fn as_str(&self) -> (r: &'a str)
        ensures
            r@ == self@,
    {
        self.s
    }

    /// Make an owned [`Slug`] with the same contents.
    pub fn to_slug(&self) -> (r: Slug)
        ensures
            r@ == self@,
    {
        Slug { s: String::from_str(self.s) }
    }
}

/// Types which can perhaps be used as a slug.
pub trait TryIntoSlug {
    /// The characters this value would contribute to a slug.
    spec fn slug_source(&self) -> Seq<char>;

    /// Convert `self` into a [`Slug`], if it has the right syntax.
    fn try_into_slug(&self) -> (r: Result<Slug, BadSlug>)
        ensures
            r is Ok <==> valid_slug(self.slug_source()),
            r is Ok ==> r->Ok_0@ == self.slug_source(),
            r is Err ==> spec_check_syntax(self.slug_source()) == Result::<(), BadSlug>::Err(
                r->Err_0,
            ),
    ;
}

impl TryIntoSlug for str {
    open spec fn slug_source(&self) -> Seq<char> {
        self@
    }

    fn try_into_slug(&self) -> (r: Result<Slug, BadSlug>) {
        match check_syntax(self) {
            Ok(()) => Ok(Slug { s: String::from_str(self) }),
            Err(e) => Err(e),
        }
    }
}

impl TryIntoSlug for String {
    open spec fn slug_source(&self) -> Seq<char> {
        self@
    }

    fn try_into_slug(&self) -> (r: Result<Slug, BadSlug>) {
        match check_syntax(self.as_str()) {
            Ok(()) => Ok(Slug { s: self.clone() }),
            Err(e) => Err(e),
        }
    }
}

} // verus!

verus! {

/// The debug representation of a character: quotes around the character with
/// escapes applied, exactly as the standard formatter prints it.
pub uninterp spec fn char_debug(c: char) -> Seq<char>;

/// Relies on the standard `Debug` formatting for `char`: the representation
/// depends on the character alone.
#[verifier::external_body]
fn fmt_char_debug(c: char) -> (r: String)
    ensures
        r@ == char_debug(c),
{
    format!("{:?}", c)
}

/// The uppercase hexadecimal digit for `d`.
pub open spec fn hex_digit(d: int) -> char {
    if d == 0 { '0' } else if d == 1 { '1' } else if d == 2 { '2' } else if d == 3 { '3' }
    else if d == 4 { '4' } else if d == 5 { '5' } else if d == 6 { '6' } else if d == 7 { '7' }
    else if d == 8 { '8' } else if d == 9 { '9' } else if d == 10 { 'A' } else if d == 11 { 'B' }
    else if d == 12 { 'C' } else if d == 13 { 'D' } else if d == 14 { 'E' } else { 'F' }
}

/// The uppercase hexadecimal digits of `n`, most significant first, with no
/// leading zeros (a lone zero for zero).
pub open spec fn hex_rep(n: nat) -> Seq<char>
    decreases n,
{
    if n < 16 {
        seq![hex_digit(n as int)]
    } else {
        hex_rep(n / 16) + seq![hex_digit((n % 16) as int)]
    }
}

/// `n` in uppercase hexadecimal, zero-padded on the left to at least four
/// digits; wider numbers keep all their digits.
pub open spec fn spec_hex_upper4(n: nat) -> Seq<char> {
    if n < 0x10 {
        "000"@ + hex_rep(n)
    } else if n < 0x100 {
        "00"@ + hex_rep(n)
    } else if n < 0x1000 {
        "0"@ + hex_rep(n)
    } else {
        hex_rep(n)
    }
}

/// Append the single uppercase hexadecimal digit for `d`.
fn push_hex_digit(s: &mut String, d: u32)
    requires
        d < 16,
    ensures
        final(s)@ == old(s)@ + seq![hex_digit(d as int)],
{
    if d == 0 {
        s.append("0");
        proof {
            reveal_strlit("0");
            assert(s@ =~= old(s)@ + seq![hex_digit(d as int)]);
        }
    } else if d == 1 {
        s.append("1");
        proof {
            reveal_strlit("1");
            assert(s@ =~= old(s)@ + seq![hex_digit(d as int)]);
        }
    } else if d == 2 {
        s.append("2");
        proof {
            reveal_strlit("2");
            assert(s@ =~= old(s)@ + seq![hex_digit(d as int)]);
        }
    } else if d == 3 {
        s.append("3");
        proof {
            reveal_strlit("3");
            assert(s@ =~= old(s)@ + seq![hex_digit(d as int)]);
        }
    } else if d == 4 {
        s.append("4");
        proof {
            reveal_strlit("4");
            assert(s@ =~= old(s)@ + seq![hex_digit(d as int)]);
        }
    } else if d == 5 {
        s.append("5");
        proof {
            reveal_strlit("5");
            assert(s@ =~= old(s)@ + seq![hex_digit(d as int)]);
        }
    } else if d == 6 {
        s.append("6");
        proof {
            reveal_strlit("6");
            assert(s@ =~= old(s)@ + seq![hex_digit(d as int)]);
        }
    } else if d == 7 {
        s.append("7");
        proof {
            reveal_strlit("7");
            assert(s@ =~= old(s)@ + seq![hex_digit(d as int)]);
        }
    } else if d == 8 {
        s.append("8");
        proof {
            reveal_strlit("8");
            assert(s@ =~= old(s)@ + seq![hex_digit(d as int)]);
        }
    } else if d == 9 {
        s.append("9");
        proof {
            reveal_strlit("9");
            assert(s@ =~= old(s)@ + seq![hex_digit(d as int)]);
        }
    } else if d == 10 {
        s.append("A");
        proof {
            reveal_strlit("A");
            assert(s@ =~= old(s)@ + seq![hex_digit(d as int)]);
        }
    } else if d == 11 {
        s.append("B");
        proof {
            reveal_strlit("B");
            assert(s@ =~= old(s)@ + seq![hex_digit(d as int)]);
        }
    } else if d == 12 {
        s.append("C");
        proof {
            reveal_strlit("C");
            assert(s@ =~= old(s)@ + seq![hex_digit(d as int)]);
        }
    } else if d == 13 {
        s.append("D");
        proof {
            reveal_strlit("D");
            assert(s@ =~= old(s)@ + seq![hex_digit(d as int)]);
        }
    } else if d == 14 {
        s.append("E");
        proof {
            reveal_strlit("E");
            assert(s@ =~= old(s)@ + seq![hex_digit(d as int)]);
        }
    } else if d == 15 {
        s.append("F");
        proof {
            reveal_strlit("F");
            assert(s@ =~= old(s)@ + seq![hex_digit(d as int)]);
        }
    } else {
        proof {
            assert(false);
        }
    }
}

/// Append the digits of `hex_rep(n)`.
fn append_hex(s: &mut String, n: u32)
    ensures
        final(s)@ == old(s)@ + hex_rep(n as nat),
    decreases n,
{
    if n < 16 {
        push_hex_digit(s, n);
    } else {
        append_hex(s, n / 16);
        push_hex_digit(s, n % 16);
        proof {
            assert(s@ =~= old(s)@ + hex_rep(n as nat));
        }
    }
}

/// Append `n` in uppercase hexadecimal, zero-padded to at least four digits.
fn append_hex_upper4(s: &mut String, n: u32)
    ensures
        final(s)@ == old(s)@ + spec_hex_upper4(n as nat),
{
    if n < 0x10 {
        s.append("000");
    } else if n < 0x100 {
        s.append("00");
    } else if n < 0x1000 {
        s.append("0");
    }
    append_hex(s, n);
    proof {
        assert(s@ =~= old(s)@ + spec_hex_upper4(n as nat));
    }
}

/// The description `message` returns for each error.
pub open spec fn badslug_message(e: BadSlug) -> Seq<char> {
    match e {
        BadSlug::BadCharacter(c) => "character "@ + char_debug(c) + " (U+"@ + spec_hex_upper4(
            c as u32 as nat,
        ) + ") is not allowed"@,
        BadSlug::BadFirstCharacter(c) => "character "@ + char_debug(c) + " (U+"@
            + spec_hex_upper4(c as u32 as nat) + ") is not allowed as the first character"@,
        BadSlug::EmptySlugNotAllowed => "empty identifier (empty slug) not allowed"@,
    }
}

impl BadSlug {
    /// The human-readable description of this error.
    pub fn message(&self) -> (r: String)
        ensures
            r@ == badslug_message(*self),
    {
        match self {
            BadSlug::BadCharacter(c) => {
                let mut s = String::from_str("character ");
                let dbg = fmt_char_debug(*c);
                s.append(dbg.as_str());
                s.append(" (U+");
                append_hex_upper4(&mut s, *c as u32);
                s.append(") is not allowed");
                proof {
                    assert(s@ =~= badslug_message(*self));
                }
                s
            },
            BadSlug::BadFirstCharacter(c) => {
                let mut s = String::from_str("character ");
                let dbg = fmt_char_debug(*c);
                s.append(dbg.as_str());
                s.append(" (U+");
                append_hex_upper4(&mut s, *c as u32);
                s.append(") is not allowed as the first character");
                proof {
                    assert(s@ =~= badslug_message(*self));
                }
                s
            },
            BadSlug::EmptySlugNotAllowed => String::from_str(
                "empty identifier (empty slug) not allowed",
            ),
        }
    }
}

} // verus!
