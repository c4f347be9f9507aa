//! The guard on documents that include documents: the trail of the documents
//! that are being rendered, which refuses a cycle and bounds the depth.

use vstd::prelude::*;
use vstd::string::StringExecFns;
use crate::error::{failure, FailureKind, ProcessorError, ProcessorErrorType};
use crate::text::{copy_texts, texts};

verus! {

/// The number of documents that may be open at once, one inside the other.
pub const MAX_INCLUDE_DEPTH: usize = 64;

/// The words for a document that is asked for while it is being rendered.
pub open spec fn cycle_text(path: Seq<char>) -> Seq<char> {
    "document includes itself: "@ + path
}

/// The words for a document that is asked for at the greatest depth.
pub open spec fn depth_text(path: Seq<char>) -> Seq<char> {
    "documents are nested too deeply: "@ + path
}

/// What asking for a document comes to while the documents of `trail` are
/// being rendered: the trail with the document at its end, or the words of
/// the refusal where the document is on the trail already or the trail is
/// full.
pub open spec fn entered(trail: Seq<Seq<char>>, path: Seq<char>) -> Result<
    Seq<Seq<char>>,
    Seq<char>,
> {
    if trail.contains(path) {
        Err(cycle_text(path))
    } else if trail.len() >= MAX_INCLUDE_DEPTH {
        Err(depth_text(path))
    } else {
        Ok(trail.push(path))
    }
}

/// The documents that are being rendered, the outermost first. No document is
/// on the trail twice, and the trail is never longer than `MAX_INCLUDE_DEPTH`.
pub struct IncludeTrail {
    open: Vec<String>,
}

impl View for IncludeTrail {
    type V = Seq<Seq<char>>;

    closed spec fn view(&self) -> Seq<Seq<char>> {
        texts(self.open@)
    }
}

impl IncludeTrail {
    #[verifier::type_invariant]
    spec fn well_formed(&self) -> bool {
        texts(self.open@).len() <= MAX_INCLUDE_DEPTH && texts(self.open@).no_duplicates()
    }

    /// A trail with no document on it.
    pub fn new() -> (trail: Self)
        ensures
            trail@ == Seq::<Seq<char>>::empty(),
    {
        let trail = IncludeTrail { open: Vec::new() };
        assert(texts(trail.open@) == Seq::<Seq<char>>::empty());
        trail
    }

    /// The number of documents that are being rendered.
    pub fn depth(&self) -> (depth: usize)
        ensures
            depth == self@.len(),
            depth <= MAX_INCLUDE_DEPTH,
            self@.no_duplicates(),
    {
        proof {
            use_type_invariant(self);
        }
        self.open.len()
    }

    /// Puts a document on the trail before it is rendered. A document that is
    /// on the trail already, or one that would make the trail too long, is
    /// refused with `RecursionLimit`, and the trail stays as it was.
    pub fn enter(&mut self, path: &str) -> (result: Result<(), ProcessorError>)
        ensures
            match entered(old(self)@, path@) {
                Ok(trail) => result is Ok && final(self)@ == trail,
                Err(words) => result matches Err(failed) && failed@ == failure(
                    FailureKind::RecursionLimit,
                    words,
                ) && final(self)@ == old(self)@,
            },
    {
        proof {
            use_type_invariant(&*self);
        }
        let mut i: usize = 0;
        while i < self.open.len()
            invariant
                i <= self.open.len(),
                forall|j: int| 0 <= j < i ==> (#[trigger] texts(self.open@)[j]) != path@,
            decreases self.open.len() - i,
        {
            let same = self.open[i].as_str().to_owned() == path.to_owned();
            if same {
                assert(texts(self.open@)[i as int] == path@);
                let mut words = "document includes itself: ".to_owned();
                words.append(path);
                return Err(ProcessorError { error: ProcessorErrorType::RecursionLimit(words) });
            }
            i += 1;
        }
        assert(!texts(self.open@).contains(path@));
        if self.open.len() >= MAX_INCLUDE_DEPTH {
            let mut words = "documents are nested too deeply: ".to_owned();
            words.append(path);
            return Err(ProcessorError { error: ProcessorErrorType::RecursionLimit(words) });
        }
        let mut open = copy_texts(&self.open, self.open.len());
        let ghost before = texts(open@);
        open.push(path.to_owned());
        assert(texts(open@) == before.push(path@));
        *self = IncludeTrail { open };
        Ok(())
    }

    /// Takes the innermost document off the trail when it has been rendered.
    pub fn leave(&mut self)
        ensures
            final(self)@ == if old(self)@.len() > 0 {
                old(self)@.drop_last()
            } else {
                old(self)@
            },
    {
        proof {
            use_type_invariant(&*self);
        }
        if self.open.len() > 0 {
            let open = copy_texts(&self.open, self.open.len() - 1);
            assert(texts(self.open@).take(self.open.len() - 1) == texts(self.open@).drop_last());
            *self = IncludeTrail { open };
        }
    }
}

/// A document that asks for a document that is being rendered is refused:
/// no chain of documents that include each other runs in a circle.
pub proof fn law_cycle_is_refused(trail: Seq<Seq<char>>, path: Seq<char>)
    requires
        trail.contains(path),
    ensures
        entered(trail, path) == Err::<Seq<Seq<char>>, Seq<char>>(cycle_text(path)),
{
}

/// Two documents that include each other: the first and the second are
/// entered, and the first is refused when the second asks for it.
pub proof fn law_two_document_cycle(first: Seq<char>, second: Seq<char>)
    requires
        first != second,
    ensures
        entered(Seq::empty(), first) == Ok::<Seq<Seq<char>>, Seq<char>>(seq![first]),
        entered(seq![first], second) == Ok::<Seq<Seq<char>>, Seq<char>>(seq![first, second]),
        entered(seq![first, second], first) == Err::<Seq<Seq<char>>, Seq<char>>(
            cycle_text(first),
        ),
{
    assert(Seq::<Seq<char>>::empty().push(first) == seq![first]);
    assert(seq![first].push(second) == seq![first, second]);
    assert(seq![first, second][0] == first);
}

/// Entering keeps a trail short and free of repetitions: however documents
/// include each other, no more than `MAX_INCLUDE_DEPTH` are open at once.
pub proof fn law_depth_is_bounded(trail: Seq<Seq<char>>, path: Seq<char>)
    requires
        trail.len() <= MAX_INCLUDE_DEPTH,
        trail.no_duplicates(),
    ensures
        entered(trail, path) matches Ok(longer) ==> longer.len() <= MAX_INCLUDE_DEPTH
            && longer.no_duplicates() && longer.len() == trail.len() + 1,
{
}

} // verus!
