//! The full-duplex relay, one direction at a time: what to do with each
//! read, and the guarantee that forwarding never alters bytes.

use vstd::prelude::*;

use crate::error::IoErrorKind;

verus! {

/// What one relay direction does after a read from its source.
#[derive(Debug)]
pub enum RelayAction {
    /// Write exactly these octets to the sink, then read again.
    Forward(Vec<u8>),
    /// The source reached end of stream: this direction is complete.
    Stop,
    /// The read failed: the relay ends with this error.
    Fail(IoErrorKind),
}

/// The mathematical shape of a [`RelayAction`].
pub enum RelayActionView {
    Forward(Seq<u8>),
    Stop,
    Fail(IoErrorKind),
}

impl View for RelayAction {
    type V = RelayActionView;

    open spec fn view(&self) -> RelayActionView {
        match self {
            RelayAction::Forward(chunk) => RelayActionView::Forward(chunk@),
            RelayAction::Stop => RelayActionView::Stop,
            RelayAction::Fail(kind) => RelayActionView::Fail(*kind),
        }
    }
}

/// The action one relay direction owes for the outcome of a read: an empty
/// read is end of stream, any other chunk is forwarded unchanged.
pub open spec fn spec_relay_step(read: Result<Seq<u8>, IoErrorKind>) -> RelayActionView {
    match read {
        Ok(chunk) => {
            if chunk.len() == 0 {
                RelayActionView::Stop
            } else {
                RelayActionView::Forward(chunk)
            }
        },
        Err(kind) => RelayActionView::Fail(kind),
    }
}

/// Decide one step of one relay direction.  `read` is the outcome of the
/// last read from the source: the octets obtained (empty at end of stream)
/// or the error.
pub fn relay_step(read: Result<Vec<u8>, IoErrorKind>) -> (action: RelayAction)
    ensures
        match read {
            Ok(chunk) => action@ == spec_relay_step(Ok::<_, IoErrorKind>(chunk@)),
            Err(kind) => action@ == spec_relay_step(Err::<Seq<u8>, _>(kind)),
        },
{
    match read {
        Ok(chunk) => {
            if chunk.len() == 0 {
                RelayAction::Stop
            } else {
                RelayAction::Forward(chunk)
            }
        },
        Err(kind) => RelayAction::Fail(kind),
    }
}

/// The octets one relay direction writes to its sink when its source
/// delivers `reads`, chunk by chunk, processed by [`spec_relay_step`] until
/// the first end-of-stream chunk.
pub open spec fn spec_relay_output(reads: Seq<Seq<u8>>) -> Seq<u8>
    decreases reads.len(),
{
    if reads.len() == 0 {
        Seq::empty()
    } else {
        match spec_relay_step(Ok::<_, IoErrorKind>(reads.first())) {
            RelayActionView::Forward(chunk) => chunk + spec_relay_output(reads.drop_first()),
            _ => Seq::empty(),
        }
    }
}

/// Round trip: whatever octet chunks a source delivers before its end of
/// stream, the relay writes exactly their concatenation to the sink,
/// byte for byte.
pub proof fn lemma_relay_preserves_bytes(reads: Seq<Seq<u8>>)
    requires
        forall|i: int| 0 <= i < reads.len() ==> (#[trigger] reads[i]).len() > 0,
    ensures
        spec_relay_output(reads) == reads.flatten(),
    decreases reads.len(),
{
    if reads.len() > 0 {
        assert(reads.first().len() > 0);
        assert(forall|i: int|
            0 <= i < reads.drop_first().len() ==> (#[trigger] reads.drop_first()[i]).len() > 0);
        lemma_relay_preserves_bytes(reads.drop_first());
    }
}

} // verus!
