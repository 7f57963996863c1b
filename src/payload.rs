use crate::error::PipelineError;
use vstd::prelude::*;

verus! {

/// Gathers the bytes of one field of an uploaded form, fed to it piece by
/// piece as the transport delivers them.
///
/// The collector keeps the first field whose name is the expected one (the
/// first field at all when no name is expected) and ignores the others.
pub struct PayloadCollector {
    expected: Option<String>,
    selected: bool,
    active: bool,
    failed: bool,
    bytes: Vec<u8>,
}

pub struct CollectorView {
    pub expected: Option<Seq<char>>,
    /// A field has been chosen.
    pub selected: bool,
    /// The field being streamed now is the chosen one.
    pub active: bool,
    /// The transport reported an error.
    pub failed: bool,
    pub bytes: Seq<u8>,
}

pub open spec fn field_accepted(expected: Option<Seq<char>>, name: Seq<char>) -> bool {
    match expected {
        None => true,
        Some(e) => e == name,
    }
}

/// What finishing a collector in the state `v` yields.
pub open spec fn collected(v: CollectorView) -> Result<Seq<u8>, PipelineError> {
    if v.failed {
        Err(PipelineError::TransportError)
    } else if !v.selected {
        Err(PipelineError::MissingField)
    } else {
        Ok(v.bytes)
    }
}

impl View for PayloadCollector {
    type V = CollectorView;

    closed spec fn view(&self) -> CollectorView {
        CollectorView {
            expected: match self.expected {
                None => None,
                Some(s) => Some(s@),
            },
            selected: self.selected,
            active: self.active,
            failed: self.failed,
            bytes: self.bytes@,
        }
    }
}

impl PayloadCollector {
    /// A collector that keeps the field named `expected`, or the first field
    /// when `expected` is `None`.
    pub fn new(expected: Option<String>) -> (r: PayloadCollector)
        ensures
            r@.expected == (match expected {
                None => None::<Seq<char>>,
                Some(s) => Some(s@),
            }),
            !r@.selected,
            !r@.active,
            !r@.failed,
            r@.bytes == Seq::<u8>::empty(),
    {
        PayloadCollector { expected, selected: false, active: false, failed: false, bytes: Vec::new() }
    }

    /// A new field named `name` starts; returns whether its bytes are kept.
    pub fn begin_field(&mut self, name: &String) -> (kept: bool)
        ensures
            kept == (!old(self)@.selected && !old(self)@.failed && field_accepted(
                old(self)@.expected,
                name@,
            )),
            final(self)@.selected == (old(self)@.selected || kept),
            final(self)@.active == kept,
            final(self)@.failed == old(self)@.failed,
            final(self)@.expected == old(self)@.expected,
            final(self)@.bytes == old(self)@.bytes,
    {
        let accepted = match &self.expected {
            None => true,
            Some(e) => e.eq(name),
        };
        let kept = !self.selected && !self.failed && accepted;
        if kept {
            self.selected = true;
        }
        self.active = kept;
        kept
    }

    /// A piece of the current field arrives; it is appended when that field
    /// is the chosen one.
    pub fn push_chunk(&mut self, chunk: &[u8])
        ensures
            final(self)@.bytes == if old(self)@.active && !old(self)@.failed {
                old(self)@.bytes + chunk@
            } else {
                old(self)@.bytes
            },
            final(self)@.selected == old(self)@.selected,
            final(self)@.active == old(self)@.active,
            final(self)@.failed == old(self)@.failed,
            final(self)@.expected == old(self)@.expected,
    {
        if self.active && !self.failed {
            let ghost before = self.bytes@;
            let mut i: usize = 0;
            while i < chunk.len()
                invariant
                    0 <= i <= chunk@.len(),
                    self.bytes@ == before + chunk@.take(i as int),
                    self.selected == old(self).selected,
                    self.active == old(self).active,
                    self.failed == old(self).failed,
                    self.expected == old(self).expected,
                decreases chunk@.len() - i,
            {
                self.bytes.push(chunk[i]);
                assert(chunk@.take(i + 1) =~= chunk@.take(i as int).push(chunk@[i as int]));
                i = i + 1;
            }
            assert(chunk@.take(chunk@.len() as int) =~= chunk@);
        }
    }

    /// The transport failed; the whole payload is lost.
    pub fn fail(&mut self)
        ensures
            final(self)@.failed,
            final(self)@.selected == old(self)@.selected,
            final(self)@.active == old(self)@.active,
            final(self)@.expected == old(self)@.expected,
            final(self)@.bytes == old(self)@.bytes,
    {
        self.failed = true;
    }

    /// The stream has ended: the bytes of the chosen field, or why there are
    /// none.
    pub fn finish(self) -> (r: Result<Vec<u8>, PipelineError>)
        ensures
            match collected(self@) {
                Ok(b) => r matches Ok(v) && v@ == b,
                Err(e) => r == Err::<Vec<u8>, PipelineError>(e),
            },
    {
        if self.failed {
            Err(PipelineError::TransportError)
        } else if !self.selected {
            Err(PipelineError::MissingField)
        } else {
            Ok(self.bytes)
        }
    }
}

} // verus!
