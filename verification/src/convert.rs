//! Conversions between values and the messages that carry them.
//!
//! The implementations name the view of the message that they read or write, which is how the
//! prover relates it to the message type of the trait.

use vstd::prelude::*;
use crate::codec::views;
use crate::error::Error;

verus! {

/// A value that can be read off a message.
pub trait FromProto: View + Sized {
    /// The message.
    type ProtoType: View;

    /// The value that the message says, or why it says none.
    spec fn read(object: <Self::ProtoType as View>::V) -> Result<Self::V, Error>;

    /// Reads the message.
    fn from_proto(object: Self::ProtoType) -> (r: Result<Self, Error>)
        ensures
            match Self::read(object@) {
                Ok(v) => r is Ok && r->Ok_0@ == v,
                Err(e) => r == Err::<Self, Error>(e),
            },
    ;
}

/// A value that can be put in a message.
pub trait IntoProto: View + Sized {
    /// The message.
    type ProtoType: View;

    /// The message that says the value.
    spec fn written(v: Self::V) -> <Self::ProtoType as View>::V;

    /// Writes the message.
    fn into_proto(self) -> (r: Self::ProtoType)
        ensures
            r@ == Self::written(self@),
    ;
}

/// What each message of a list says; if one says nothing, why the first such one does not.
pub open spec fn read_all<T: FromProto>(s: Seq<<T::ProtoType as View>::V>) -> Result<
    Seq<T::V>,
    Error,
>
    decreases s.len(),
{
    if s.len() == 0 {
        Ok(Seq::empty())
    } else {
        match read_all::<T>(s.drop_last()) {
            Err(e) => Err(e),
            Ok(before) => match T::read(s.last()) {
                Err(e) => Err(e),
                Ok(v) => Ok(before.push(v)),
            },
        }
    }
}

/// A message for each value of a list.
pub open spec fn written_all<T: IntoProto>(s: Seq<T::V>) -> Seq<<T::ProtoType as View>::V> {
    Seq::new(s.len(), |i: int| T::written(s[i]))
}

/// A list with a message that says nothing says nothing as a whole.
proof fn lemma_read_all_stops<T: FromProto>(s: Seq<<T::ProtoType as View>::V>, n: int)
    requires
        0 <= n <= s.len(),
        read_all::<T>(s.take(n)) is Err,
    ensures
        read_all::<T>(s) == read_all::<T>(s.take(n)),
    decreases s.len(),
{
    if n == s.len() {
        assert(s.take(n) =~= s);
    } else {
        assert(s.drop_last().take(n) =~= s.take(n));
        lemma_read_all_stops::<T>(s.drop_last(), n);
    }
}

/// Reads a list of messages.
pub fn from_proto_all<T: FromProto>(objects: Vec<T::ProtoType>) -> (r: Result<Vec<T>, Error>)
    ensures
        match read_all::<T>(views(objects@)) {
            Ok(v) => r is Ok && views(r->Ok_0@) == v,
            Err(e) => r == Err::<Vec<T>, Error>(e),
        },
{
    let ghost all = views(objects@);
    let ghost given = objects@;
    let mut values: Vec<T> = Vec::new();
    assert(views(values@) =~= Seq::empty());
    assert(all.take(0) =~= Seq::empty());
    for object in it: objects
        invariant
            it.seq() == given,
            all == views(given),
            read_all::<T>(all.take(it.index() as int)) == Ok::<Seq<T::V>, Error>(views(values@)),
    {
        let ghost k = it.index() as int;
        let ghost before = values@;
        proof {
            assert(all.take(k + 1).drop_last() =~= all.take(k));
            assert(all.take(k + 1).last() == object@);
        }
        match T::from_proto(object) {
            Ok(value) => {
                values.push(value);
                assert(views(values@) =~= views(before).push(value@));
            },
            Err(e) => {
                proof {
                    lemma_read_all_stops::<T>(all, k + 1);
                }
                return Err(e);
            },
        }
    }
    assert(all.take(given.len() as int) =~= all);
    Ok(values)
}

/// Writes a list of messages.
pub fn into_proto_all<T: IntoProto>(values: Vec<T>) -> (r: Vec<T::ProtoType>)
    ensures
        views(r@) == written_all::<T>(views(values@)),
{
    let ghost given = values@;
    let mut objects: Vec<T::ProtoType> = Vec::new();
    for value in it: values
        invariant
            it.seq() == given,
            objects@.len() == it.index(),
            forall|j: int|
                0 <= j < objects@.len() ==> (#[trigger] objects@[j])@ == T::written(given[j]@),
    {
        objects.push(value.into_proto());
    }
    assert(views(objects@) =~= written_all::<T>(views(given)));
    objects
}

/// A list of messages says the values that the messages say one by one.
pub proof fn lemma_read_all_each<T: FromProto>(
    s: Seq<<T::ProtoType as View>::V>,
    values: Seq<T::V>,
)
    requires
        s.len() == values.len(),
        forall|i: int|
            0 <= i < s.len() ==> T::read(#[trigger] s[i]) == Ok::<T::V, Error>(values[i]),
    ensures
        read_all::<T>(s) == Ok::<Seq<T::V>, Error>(values),
    decreases s.len(),
{
    if s.len() == 0 {
        assert(values =~= Seq::empty());
    } else {
        let before = values.drop_last();
        assert forall|i: int| 0 <= i < s.drop_last().len() implies T::read(
            #[trigger] s.drop_last()[i],
        ) == Ok::<T::V, Error>(before[i]) by {
            assert(s.drop_last()[i] == s[i]);
        }
        lemma_read_all_each::<T>(s.drop_last(), before);
        assert(T::read(s[s.len() - 1]) == Ok::<T::V, Error>(values[s.len() - 1]));
        assert(before.push(values.last()) =~= values);
    }
}

/// What a list of messages says has one value for each message.
pub proof fn lemma_read_all_items<T: FromProto>(s: Seq<<T::ProtoType as View>::V>)
    ensures
        read_all::<T>(s) matches Ok(values) ==> values.len() == s.len() && forall|i: int|
            0 <= i < s.len() ==> T::read(#[trigger] s[i]) == Ok::<T::V, Error>(values[i]),
    decreases s.len(),
{
    if let Ok(values) = read_all::<T>(s) {
        if s.len() > 0 {
            lemma_read_all_items::<T>(s.drop_last());
            assert forall|i: int| 0 <= i < s.len() implies T::read(#[trigger] s[i]) == Ok::<
                T::V,
                Error,
            >(values[i]) by {
                if i < s.len() - 1 {
                    assert(s.drop_last()[i] == s[i]);
                }
            }
        }
    }
}

} // verus!
