//! The list of channel names an event targets.
use crate::text::same_text;
use smallvec::SmallVec;
use vstd::prelude::*;

verus! {

/// The channel names of one event, kept inline while there are at most two.
///
/// Trusted: the names live in a `smallvec::SmallVec<[String; 2]>`, which the
/// verifier does not look into. What the list holds is known only through
/// `channel_names` and the two functions below that speak of it.
#[verifier::external_body]
#[derive(Debug)]
pub struct ChannelList {
    names: SmallVec<[String; 2]>,
}

/// The channel names that a list holds, in order, each as its text: the
/// elements of the underlying `SmallVec`, from the first to the last.
pub uninterp spec fn channel_names(list: ChannelList) -> Seq<Seq<char>>;

/// The texts of a sequence of strings.
pub open spec fn texts(names: Seq<String>) -> Seq<Seq<char>> {
    names.map_values(|s: String| s@)
}

/// Builds a channel list from a vector of names.
///
/// Trusted: wraps `SmallVec::from_vec`, which takes over the vector's
/// elements in their order.
#[verifier::external_body]
fn list_from_vec(names: Vec<String>) -> (r: ChannelList)
    ensures
        channel_names(r) == texts(names@),
{
    ChannelList { names: SmallVec::from_vec(names) }
}

/// The names of a channel list as a slice.
///
/// Trusted: wraps `SmallVec::as_slice`, which borrows the whole list in
/// order.
#[verifier::external_body]
fn list_as_slice(list: &ChannelList) -> (r: &[String])
    ensures
        texts(r@) == channel_names(*list),
{
    list.names.as_slice()
}

impl Clone for ChannelList {
    /// A copy of the list with the same names in the same order.
    fn clone(&self) -> (r: ChannelList)
        ensures
            r@ == self@,
    {
        let names = list_as_slice(self);
        let mut copy: Vec<String> = Vec::new();
        let mut i: usize = 0;
        while i < names.len()
            invariant
                0 <= i <= names@.len(),
                copy@ == names@.take(i as int),
            decreases names@.len() - i,
        {
            copy.push(names[i].clone());
            proof {
                assert(copy@ =~= names@.take(i as int + 1));
            }
            i = i + 1;
        }
        proof {
            assert(names@.take(i as int) =~= names@);
        }
        list_from_vec(copy)
    }
}

impl ChannelList {
    /// The texts of the names in the list, in order.
    pub open spec fn view(&self) -> Seq<Seq<char>> {
        channel_names(*self)
    }

    /// A list that holds `names`, in their order, duplicates included.
    pub fn from_names(names: Vec<String>) -> (r: ChannelList)
        ensures
            r@ == texts(names@),
    {
        list_from_vec(names)
    }

    /// A list without names.
    pub fn empty() -> (r: ChannelList)
        ensures
            r@ == Seq::<Seq<char>>::empty(),
    {
        let r = list_from_vec(Vec::new());
        assert(texts(Seq::<String>::empty()) =~= Seq::<Seq<char>>::empty());
        r
    }

    /// The names of the list as a slice.
    pub fn as_slice(&self) -> (r: &[String])
        ensures
            texts(r@) == self@,
    {
        list_as_slice(self)
    }

    /// Number of names in the list, duplicates counted.
    pub fn len(&self) -> (r: usize)
        ensures
            r == self@.len(),
    {
        let names = list_as_slice(self);
        assert(texts(names@).len() == names@.len());
        names.len()
    }

    /// True exactly when `name` is one of the names in the list.
    pub fn contains(&self, name: &str) -> (r: bool)
        ensures
            r == self@.contains(name@),
    {
        let names = list_as_slice(self);
        let mut i: usize = 0;
        while i < names.len()
            invariant
                0 <= i <= names.len(),
                texts(names@) == self@,
                forall|j: int| 0 <= j < i ==> self@[j] != name@,
            decreases names.len() - i,
        {
            assert(texts(names@)[i as int] == names@[i as int]@);
            if same_text(names[i].as_str(), name) {
                assert(self@[i as int] == name@);
                return true;
            }
            i = i + 1;
        }
        assert(texts(names@).len() == names@.len());
        false
    }
}

} // verus!
