use vstd::prelude::*;
use vstd::string::StrSliceExecFns;
use vstd::string::StringExecFns;

use crate::text::push_char;

verus! {

/// A contact as stored: `id` is assigned by the store and never changes.
#[derive(Debug)]
pub struct Contact {
    pub id: u64,
    pub first_name: Option<String>,
    pub last_name: Option<String>,
    pub company_name: Option<String>,
    pub phone_number: String,
}

/// The values of a contact that is not stored yet.
#[derive(Debug)]
pub struct ContactForUpdate {
    pub first_name: Option<String>,
    pub last_name: Option<String>,
    pub company_name: Option<String>,
    pub phone_number: String,
}

/// The character of a decimal digit.
pub open spec fn digit_char(d: nat) -> char {
    if d == 0 { '0' }
    else if d == 1 { '1' }
    else if d == 2 { '2' }
    else if d == 3 { '3' }
    else if d == 4 { '4' }
    else if d == 5 { '5' }
    else if d == 6 { '6' }
    else if d == 7 { '7' }
    else if d == 8 { '8' }
    else { '9' }
}

/// The decimal notation of a number, without leading zeros.
pub open spec fn decimal(n: nat) -> Seq<char>
    decreases n,
{
    if n < 10 {
        seq![digit_char(n)]
    } else {
        decimal(n / 10).push(digit_char(n % 10))
    }
}

/// The text shown for an optional value: the value, or `N/A`.
pub open spec fn or_not_available(v: Option<String>) -> Seq<char> {
    match v {
        Some(s) => s@,
        None => seq!['N', '/', 'A'],
    }
}

/// The separator between the parts of a contact's line.
pub open spec fn separator() -> Seq<char> {
    seq![' ', '-', ' ']
}

/// Characters removed from a phone number before it is dialled: the Unicode
/// `White_Space` characters (tab to carriage return, space, next line,
/// no-break space, ogham space, the en quad to hair space range, line and
/// paragraph separators, narrow no-break space, medium mathematical space and
/// ideographic space).
pub open spec fn is_blank(c: char) -> bool {
    let u = c as u32;
    (0x9 <= u && u <= 0xD) || u == 0x20 || u == 0x85 || u == 0xA0 || u == 0x1680 || (0x2000
        <= u && u <= 0x200A) || u == 0x2028 || u == 0x2029 || u == 0x202F || u == 0x205F || u
        == 0x3000
}

fn blank(c: char) -> (r: bool)
    ensures
        r == is_blank(c),
{
    let u = c as u32;
    (0x9 <= u && u <= 0xD) || u == 0x20 || u == 0x85 || u == 0xA0 || u == 0x1680 || (0x2000 <= u
        && u <= 0x200A) || u == 0x2028 || u == 0x2029 || u == 0x202F || u == 0x205F || u == 0x3000
}

/// A phone number without its blanks, the other characters kept in order.
pub open spec fn without_blanks(s: Seq<char>) -> Seq<char>
    decreases s.len(),
{
    if s.len() == 0 {
        s
    } else if is_blank(s.last()) {
        without_blanks(s.drop_last())
    } else {
        without_blanks(s.drop_last()).push(s.last())
    }
}

impl Contact {
    /// The one-line form of a contact:
    /// `#<id> - <first> <last> - <company> - <phone>`, with `N/A` for a
    /// missing value.
    pub open spec fn line(&self) -> Seq<char> {
        seq!['#'] + decimal(self.id as nat) + separator() + or_not_available(self.first_name)
            + seq![' '] + or_not_available(self.last_name) + separator()
            + or_not_available(self.company_name) + separator() + self.phone_number@
    }

    /// The contact as one line of text.
    pub fn to_string(&self) -> (r: String)
        ensures
            r@ == self.line(),
    {
        let mut s = String::new();
        push_char(&mut s, '#');
        push_decimal(&mut s, self.id);
        push_separator(&mut s);
        push_optional(&mut s, &self.first_name);
        push_char(&mut s, ' ');
        push_optional(&mut s, &self.last_name);
        push_separator(&mut s);
        push_optional(&mut s, &self.company_name);
        push_separator(&mut s);
        s.append(self.phone_number.as_str());
        assert(s@ =~= self.line());
        s
    }

    /// The number to hand to the dialler: the phone number without blanks.
    pub fn dial_number(&self) -> (r: String)
        ensures
            r@ == without_blanks(self.phone_number@),
    {
        let digits = self.phone_number.as_str();
        let n = digits.unicode_len();
        let mut r = String::new();
        let mut i: usize = 0;
        while i < n
            invariant
                n == self.phone_number@.len(),
                digits@ == self.phone_number@,
                i <= n,
                r@ == without_blanks(self.phone_number@.subrange(0, i as int)),
            decreases n - i,
        {
            let c = digits.get_char(i);
            let ghost before = self.phone_number@.subrange(0, i as int);
            let ghost after = self.phone_number@.subrange(0, i + 1);
            assert(after.drop_last() =~= before);
            assert(after.last() == c);
            if !blank(c) {
                push_char(&mut r, c);
            }
            i = i + 1;
        }
        assert(self.phone_number@.subrange(0, n as int) =~= self.phone_number@);
        r
    }
}

fn digit_of(d: u64) -> (c: char)
    requires
        d < 10,
    ensures
        c == digit_char(d as nat),
{
    if d == 0 { '0' }
    else if d == 1 { '1' }
    else if d == 2 { '2' }
    else if d == 3 { '3' }
    else if d == 4 { '4' }
    else if d == 5 { '5' }
    else if d == 6 { '6' }
    else if d == 7 { '7' }
    else if d == 8 { '8' }
    else { '9' }
}

/// Appends the decimal notation of `n`.
fn push_decimal(s: &mut String, n: u64)
    ensures
        final(s)@ == old(s)@ + decimal(n as nat),
    decreases n,
{
    if n >= 10 {
        push_decimal(s, n / 10);
    }
    push_char(s, digit_of(n % 10));
    assert(final(s)@ =~= old(s)@ + decimal(n as nat)) by {
        if n < 10 {
            assert(decimal(n as nat) == seq![digit_char(n as nat)]);
        }
    }
}

fn push_separator(s: &mut String)
    ensures
        final(s)@ == old(s)@ + separator(),
{
    push_char(s, ' ');
    push_char(s, '-');
    push_char(s, ' ');
    assert(final(s)@ =~= old(s)@ + separator());
}

fn push_optional(s: &mut String, v: &Option<String>)
    ensures
        final(s)@ == old(s)@ + or_not_available(*v),
{
    match v {
        Some(t) => {
            s.append(t.as_str());
        },
        None => {
            push_char(s, 'N');
            push_char(s, '/');
            push_char(s, 'A');
            assert(final(s)@ =~= old(s)@ + seq!['N', '/', 'A']);
        },
    }
}

} // verus!
