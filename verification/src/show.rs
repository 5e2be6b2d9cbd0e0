//! Values as they are shown in a log.

use vstd::prelude::*;
use crate::codec::views;
use crate::text::append_hex;
use crate::text::hex;

verus! {

// ---------------------------------------------------------------------------------------------
// Formatters
// ---------------------------------------------------------------------------------------------

/// `core::fmt::Formatter`, which gathers text: nothing is known of it but the text that it has
/// gathered and whether it was asked for the form on several lines.
#[verifier::external_type_specification]
#[verifier::external_body]
pub struct ExFormatter<'a>(core::fmt::Formatter<'a>);

/// `core::fmt::Error`, of which nothing is known.
#[verifier::external_type_specification]
#[verifier::external_body]
pub struct ExFormatError(core::fmt::Error);

/// The text that a formatter has gathered, in order.
pub uninterp spec fn text_in(f: core::fmt::Formatter<'_>) -> Seq<char>;

/// Whether a formatter was asked for the form on several lines, as `{:#?}` does.
pub uninterp spec fn asks_for_lines(f: core::fmt::Formatter<'_>) -> bool;

/// Calls `Formatter::write_str`, which succeeds only if the whole text was written: the formatter
/// has then gathered the text behind what it had. What it has gathered where writing fails is left
/// open.
#[verifier::external_body]
pub(crate) fn write_text(f: &mut core::fmt::Formatter<'_>, text: &str) -> (r: core::fmt::Result)
    ensures
        r is Ok ==> text_in(*final(f)) == text_in(*old(f)) + text@,
{
    f.write_str(text)
}

/// Calls `Formatter::alternate`, which tells whether the `#` flag was given.
#[verifier::external_body]
pub(crate) fn wants_lines(f: &core::fmt::Formatter<'_>) -> (r: bool)
    ensures
        r == asks_for_lines(*f),
{
    f.alternate()
}

// ---------------------------------------------------------------------------------------------
// Values
// ---------------------------------------------------------------------------------------------

/// A value that has a text.
pub trait Shown: View + Sized {
    /// The text of the value.
    spec fn shown(v: Self::V) -> Seq<char>;

    /// Appends the text of the value.
    fn append_shown(&self, out: &mut String)
        ensures
            final(out)@ == old(out)@ + Self::shown(self@),
    ;
}

/// The text of a value.
pub fn shown_text<T: Shown>(value: &T) -> (r: String)
    ensures
        r@ == T::shown(value@),
{
    let mut out = String::new();
    value.append_shown(&mut out);
    assert(out@ =~= T::shown(value@));
    out
}

/// Writes the text of a value.
pub fn write_shown<T: Shown>(value: &T, f: &mut core::fmt::Formatter<'_>) -> (r: core::fmt::Result)
    ensures
        r is Ok ==> text_in(*final(f)) == text_in(*old(f)) + T::shown(value@),
{
    let text = shown_text(value);
    write_text(f, text.as_str())
}

impl Shown for Vec<u8> {
    open spec fn shown(v: Seq<u8>) -> Seq<char> {
        hex(v)
    }

    fn append_shown(&self, out: &mut String) {
        append_hex(out, self.as_slice());
    }
}

/// The texts of the items, with a comma between two of them.
pub open spec fn items_shown<T: Shown>(s: Seq<T::V>) -> Seq<char>
    decreases s.len(),
{
    if s.len() == 0 {
        Seq::empty()
    } else if s.len() == 1 {
        T::shown(s[0])
    } else {
        items_shown::<T>(s.drop_last()) + ", "@ + T::shown(s.last())
    }
}

/// The texts of the items in brackets.
pub open spec fn list_shown<T: Shown>(s: Seq<T::V>) -> Seq<char> {
    "["@ + items_shown::<T>(s) + "]"@
}

/// Appends the texts of the items, with a comma between two of them.
pub fn append_items<T: Shown>(out: &mut String, items: &[T])
    ensures
        final(out)@ == old(out)@ + items_shown::<T>(views(items@)),
{
    let ghost all = views(items@);
    let ghost start = out@;
    let mut i: usize = 0;
    assert(out@ =~= start + items_shown::<T>(all.take(0)));
    while i < items.len()
        invariant
            i <= items@.len(),
            all == views(items@),
            out@ == start + items_shown::<T>(all.take(i as int)),
        decreases items@.len() - i,
    {
        if i > 0 {
            out.append(", ");
        }
        items[i].append_shown(out);
        proof {
            let next = all.take(i + 1);
            assert(next.drop_last() =~= all.take(i as int));
            assert(next.last() == items@[i as int]@);
            assert(out@ =~= start + items_shown::<T>(next));
        }
        i = i + 1;
    }
    assert(all.take(i as int) =~= all);
}

/// Appends the texts of the items in brackets.
pub fn append_list<T: Shown>(out: &mut String, items: &[T])
    ensures
        final(out)@ == old(out)@ + list_shown::<T>(views(items@)),
{
    out.append("[");
    append_items(out, items);
    out.append("]");
    assert(out@ =~= old(out)@ + list_shown::<T>(views(items@)));
}

} // verus!
