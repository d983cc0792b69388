//! The fragment buffer and the artifact that a merge produces.

use vstd::prelude::*;

verus! {

/// All fragments of `fragments` joined end to end, first fragment first.
pub open spec fn concat_all(fragments: Seq<Seq<u8>>) -> Seq<u8>
    decreases fragments.len(),
{
    if fragments.len() == 0 {
        Seq::<u8>::empty()
    } else {
        concat_all(fragments.drop_last()) + fragments.last()
    }
}

/// The total number of bytes held by `fragments`.
pub open spec fn total_size(fragments: Seq<Seq<u8>>) -> nat
    decreases fragments.len(),
{
    if fragments.len() == 0 {
        0
    } else {
        total_size(fragments.drop_last()) + fragments.last().len()
    }
}

/// The joined bytes are exactly as many as the fragments hold together.
pub proof fn lemma_concat_size(fragments: Seq<Seq<u8>>)
    ensures
        concat_all(fragments).len() == total_size(fragments),
    decreases fragments.len(),
{
    if fragments.len() > 0 {
        lemma_concat_size(fragments.drop_last());
    }
}

/// Joining keeps every byte at its place: byte `j` of fragment `i` stands in
/// the joined bytes right after all bytes of the fragments before `i`.
pub proof fn lemma_concat_keeps_order(fragments: Seq<Seq<u8>>, i: int, j: int)
    requires
        0 <= i < fragments.len(),
        0 <= j < fragments[i].len(),
    ensures
        total_size(fragments.take(i)) + j < concat_all(fragments).len(),
        concat_all(fragments)[total_size(fragments.take(i)) + j] == fragments[i][j],
    decreases fragments.len(),
{
    let front = fragments.drop_last();
    lemma_concat_size(front);
    lemma_concat_size(fragments);
    if i == fragments.len() - 1 {
        assert(fragments.take(i) =~= front);
    } else {
        lemma_concat_keeps_order(front, i, j);
        assert(front.take(i) =~= fragments.take(i));
    }
}

/// Why a merge produced no artifact.
#[derive(Clone, Copy, Debug, PartialEq, Eq, Structural)]
pub enum MergeFailure {
    /// Nothing was recorded, so there is nothing to play back.
    NoFragments,
}

impl MergeFailure {
    /// The text shown to the user for this failure.
    pub fn message(&self) -> (text: String)
        ensures
            text@ == "no recording available"@,
    {
        "no recording available".to_string()
    }
}

/// One playable recording: the bytes of all fragments in emission order.
#[derive(Debug)]
pub struct PlaybackArtifact {
    data: Vec<u8>,
    fragment_count: usize,
}

impl View for PlaybackArtifact {
    type V = Seq<u8>;

    closed spec fn view(&self) -> Seq<u8> {
        self.data@
    }
}

impl PlaybackArtifact {
    /// The number of fragments the artifact was assembled from.
    pub closed spec fn spec_fragment_count(&self) -> nat {
        self.fragment_count as nat
    }

    /// The bytes of the recording.
    pub fn data(&self) -> (bytes: &Vec<u8>)
        ensures
            bytes@ == self@,
    {
        &self.data
    }

    /// The size of the recording in bytes.
    pub fn size(&self) -> (n: usize)
        ensures
            n == self@.len(),
    {
        self.data.len()
    }

    /// The number of fragments the artifact was assembled from.
    pub fn fragment_count(&self) -> (n: usize)
        ensures
            n == self.spec_fragment_count(),
    {
        self.fragment_count
    }
}

/// Fragments in the order in which they arrived. Nothing is ever removed.
#[derive(Debug)]
pub struct FragmentBuffer {
    fragments: Vec<Vec<u8>>,
}

impl View for FragmentBuffer {
    type V = Seq<Seq<u8>>;

    closed spec fn view(&self) -> Seq<Seq<u8>> {
        Seq::new(self.fragments@.len(), |i: int| self.fragments@[i]@)
    }
}

impl FragmentBuffer {
    /// An empty buffer.
    pub fn new() -> (buffer: FragmentBuffer)
        ensures
            buffer@ == Seq::<Seq<u8>>::empty(),
    {
        let buffer = FragmentBuffer { fragments: Vec::new() };
        assert(buffer@ =~= Seq::<Seq<u8>>::empty());
        buffer
    }

    /// The number of fragments held.
    pub fn len(&self) -> (n: usize)
        ensures
            n == self@.len(),
    {
        self.fragments.len()
    }

    /// Whether no fragment has arrived yet.
    pub fn is_empty(&self) -> (empty: bool)
        ensures
            empty == (self@.len() == 0),
    {
        self.fragments.len() == 0
    }

    /// Adds `fragment` behind all fragments that arrived before it.
    pub fn append(&mut self, fragment: Vec<u8>)
        ensures
            final(self)@ == old(self)@.push(fragment@),
    {
        self.fragments.push(fragment);
        assert(self@ =~= old(self)@.push(fragment@));
    }

    /// Joins all fragments, in the order appended, into one artifact.
    ///
    /// Fails exactly when the buffer holds no fragment. The buffer is left
    /// as it is, so a second merge gives an artifact with the same bytes.
    pub fn merge_all(&self) -> (result: Result<PlaybackArtifact, MergeFailure>)
        ensures
            result is Err <==> self@.len() == 0,
            result matches Ok(artifact) ==> artifact@ == concat_all(self@)
                && artifact.spec_fragment_count() == self@.len(),
            result matches Err(failure) ==> failure == MergeFailure::NoFragments,
    {
        if self.fragments.len() == 0 {
            return Err(MergeFailure::NoFragments);
        }
        let mut data: Vec<u8> = Vec::new();
        let mut i: usize = 0;
        while i < self.fragments.len()
            invariant
                i <= self.fragments@.len(),
                data@ == concat_all(self@.take(i as int)),
            decreases self.fragments@.len() - i,
        {
            let fragment = &self.fragments[i];
            let ghost before = data@;
            let mut k: usize = 0;
            while k < fragment.len()
                invariant
                    k <= fragment@.len(),
                    data@ == before + fragment@.take(k as int),
                decreases fragment@.len() - k,
            {
                data.push(fragment[k]);
                k += 1;
                assert(fragment@.take(k as int) =~= fragment@.take(k - 1).push(fragment@[k - 1]));
                assert(data@ =~= before + fragment@.take(k as int));
            }
            assert(fragment@.take(k as int) =~= fragment@);
            i += 1;
            proof {
                let taken = self@.take(i as int);
                assert(taken.drop_last() =~= self@.take(i - 1));
                assert(taken.last() == fragment@);
            }
        }
        assert(self@.take(i as int) =~= self@);
        Ok(PlaybackArtifact { data, fragment_count: self.fragments.len() })
    }
}

} // verus!
