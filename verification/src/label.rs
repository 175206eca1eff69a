//! The short text by which an id is shown: `world@index v generation`, as in `0@3v1`.
use vstd::prelude::*;

use crate::sys::{b2BodyId, b2JointId};

verus! {

/// The character of the decimal digit `d`.
pub open spec fn digit_char(d: nat) -> char
    recommends
        d < 10,
{
    (48 + d) as char
}

/// The decimal digits of `n`, most significant first, with no leading zeros.
pub open spec fn decimal(n: nat) -> Seq<char>
    decreases n,
{
    if n < 10 {
        seq![digit_char(n)]
    } else {
        decimal(n / 10).push(digit_char(n % 10))
    }
}

/// `i` in decimal, with a leading minus sign when it is negative.
pub open spec fn signed_decimal(i: int) -> Seq<char> {
    if i < 0 {
        seq!['-'] + decimal((-i) as nat)
    } else {
        decimal(i as nat)
    }
}

/// The number that a string of decimal digits stands for, most significant digit first.
pub open spec fn decimal_value(digits: Seq<char>) -> int
    decreases digits.len(),
{
    if digits.len() == 0 {
        0
    } else {
        decimal_value(digits.drop_last()) * 10 + (digits.last() as int - 48)
    }
}

/// Whether `c` is one of the characters `0` to `9`.
pub open spec fn is_decimal_digit(c: char) -> bool {
    48 <= c as int && c as int <= 57
}

/// The decimal text of `n` is made of digits only, starts with no superfluous zero, and reads
/// back as `n`: no digit is dropped, added or changed.
pub proof fn lemma_decimal_reads_back(n: nat)
    ensures
        decimal(n).len() >= 1,
        forall|i: int| 0 <= i < decimal(n).len() ==> is_decimal_digit(#[trigger] decimal(n)[i]),
        decimal_value(decimal(n)) == n,
        n != 0 ==> decimal(n)[0] != '0',
    decreases n,
{
    let d = n % 10;
    assert((digit_char(d) as int) == 48 + d);
    if n < 10 {
        assert(decimal(n).drop_last() =~= Seq::<char>::empty());
        assert(decimal_value(decimal(n)) == decimal_value(Seq::<char>::empty()) * 10 + (digit_char(n) as int - 48));
    } else {
        lemma_decimal_reads_back(n / 10);
        let prefix = decimal(n / 10);
        assert(decimal(n).drop_last() =~= prefix);
        assert(decimal(n)[0] == prefix[0]);
        assert forall|i: int| 0 <= i < decimal(n).len() implies is_decimal_digit(
            #[trigger] decimal(n)[i],
        ) by {
            if i < prefix.len() {
                assert(decimal(n)[i] == prefix[i]);
            }
        }
    }
}

/// The text of a signed number is a minus sign followed by the text of its magnitude when it
/// is negative, and the text of the number itself otherwise.
pub proof fn lemma_signed_decimal_reads_back(i: int)
    ensures
        i < 0 ==> signed_decimal(i)[0] == '-' && decimal_value(signed_decimal(i).drop_first())
            == -i,
        i >= 0 ==> decimal_value(signed_decimal(i)) == i,
{
    if i < 0 {
        lemma_decimal_reads_back((-i) as nat);
        assert(signed_decimal(i).drop_first() =~= decimal((-i) as nat));
    } else {
        lemma_decimal_reads_back(i as nat);
    }
}

/// The label of an id with the world slot `world0`, the index `index1` and the generation
/// `generation`.
pub open spec fn id_label(world0: u16, index1: i32, generation: u16) -> Seq<char> {
    decimal(world0 as nat) + seq!['@'] + signed_decimal(index1 as int) + seq!['v'] + decimal(
        generation as nat,
    )
}

/// An id's label reads back as its parts: the digits before the `@` are its world slot, those
/// after the last `v` its generation, and what lies between them its index.
pub proof fn lemma_label_reads_back(world0: u16, index1: i32, generation: u16)
    ensures
        ({
            let label = id_label(world0, index1, generation);
            let at = decimal(world0 as nat).len() as int;
            let v = label.len() - decimal(generation as nat).len() - 1;
            &&& at < v < label.len()
            &&& label[at] == '@'
            &&& label[v] == 'v'
            &&& forall|i: int| 0 <= i < at ==> is_decimal_digit(#[trigger] label[i])
            &&& decimal_value(label.subrange(0, at)) == world0
            &&& label.subrange(at + 1, v) == signed_decimal(index1 as int)
            &&& decimal_value(label.subrange(v + 1, label.len() as int)) == generation
        }),
{
    lemma_decimal_reads_back(world0 as nat);
    lemma_decimal_reads_back(generation as nat);
    lemma_signed_decimal_reads_back(index1 as int);
    let w = decimal(world0 as nat);
    let m = signed_decimal(index1 as int);
    let g = decimal(generation as nat);
    let label = id_label(world0, index1, generation);
    assert(label =~= w + seq!['@'] + m + seq!['v'] + g);
    assert(label.subrange(0, w.len() as int) =~= w);
    assert(label.subrange((w.len() + 1) as int, (label.len() - g.len() - 1) as int) =~= m);
    assert(label.subrange((label.len() - g.len()) as int, label.len() as int) =~= g);
    assert forall|i: int| 0 <= i < w.len() implies is_decimal_digit(#[trigger] label[i]) by {
        assert(label[i] == w[i]);
    }
}

/// Calls `String::push`, which appends the character `c` to the end of the string.
#[verifier::external_body]
fn push_char(text: &mut String, c: char)
    ensures
        final(text)@ == old(text)@.push(c),
{
    text.push(c)
}

/// The character of the decimal digit `d`.
fn digit(d: u32) -> (c: char)
    requires
        d < 10,
    ensures
        c == digit_char(d as nat),
{
    let byte: u8 = 48u8 + d as u8;
    byte as char
}

/// Appends the decimal digits of `n` to `text`.
fn push_decimal(text: &mut String, n: u32)
    ensures
        final(text)@ == old(text)@ + decimal(n as nat),
    decreases n,
{
    if n >= 10 {
        push_decimal(text, n / 10);
    }
    push_char(text, digit(n % 10));
    proof {
        assert(old(text)@ + decimal(n as nat) =~= if n >= 10 {
            old(text)@ + decimal((n / 10) as nat)
        } else {
            old(text)@
        }.push(digit_char((n % 10) as nat)));
    }
}

/// Appends `i` in decimal to `text`, with a leading minus sign when it is negative.
fn push_signed_decimal(text: &mut String, i: i32)
    ensures
        final(text)@ == old(text)@ + signed_decimal(i as int),
{
    if i < 0 {
        push_char(text, '-');
        let magnitude: i64 = -(i as i64);
        push_decimal(text, magnitude as u32);
        assert(old(text)@ + signed_decimal(i as int) =~= old(text)@.push('-') + decimal(
            magnitude as nat,
        ));
    } else {
        push_decimal(text, i as u32);
    }
}

/// The label of an id with the given parts.
fn label_of(world0: u16, index1: i32, generation: u16) -> (r: String)
    ensures
        r@ == id_label(world0, index1, generation),
{
    let mut text = String::new();
    push_decimal(&mut text, world0 as u32);
    push_char(&mut text, '@');
    push_signed_decimal(&mut text, index1);
    push_char(&mut text, 'v');
    push_decimal(&mut text, generation as u32);
    assert(text@ =~= id_label(world0, index1, generation));
    text
}

impl crate::ids::BodyId {
    /// The text by which this id is shown: its world slot, `@`, its index, `v`, and its
    /// generation, as in `0@3v1`.
    pub fn label(&self) -> (r: String)
        ensures
            r@ == id_label(self.0.world0, self.0.index1, self.0.generation),
    {
        let raw: b2BodyId = self.0;
        label_of(raw.world0, raw.index1, raw.generation)
    }
}

impl crate::joint::JointId {
    /// The text by which this id is shown: its world slot, `@`, its index, `v`, and its
    /// generation, as in `0@3v1`.
    pub fn label(&self) -> (r: String)
        ensures
            r@ == id_label(self.0.world0, self.0.index1, self.0.generation),
    {
        let raw: b2JointId = self.0;
        label_of(raw.world0, raw.index1, raw.generation)
    }
}

} // verus!
