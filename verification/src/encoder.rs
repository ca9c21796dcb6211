//! The encoder session: owns the encoding state exclusively, opens from a
//! configuration, turns submitted frames into output units, and tracks the
//! frames still buffered for lookahead.
//!
//! A session holds a first-in-first-out lookahead queue bounded by the
//! configured number of buffered frames. Submitting a frame enqueues its
//! timestamp; once the queue runs past its depth, or on an end-of-stream
//! call with no frame, the oldest frame leaves the queue as one output
//! unit. The session's ghost history — every timestamp submitted and every
//! timestamp emitted — makes the flushing guarantee a theorem: emitted is
//! always a prefix of submitted, and equals it exactly when no delayed
//! frames remain.

use vstd::prelude::*;
use crate::Error;
use crate::nal::NalData;
use crate::param::Param;
use crate::picture::{Picture, spec_dims_allocatable};

verus! {

/// The mathematical state of an encoder session.
pub ghost struct EncoderView {
    /// Encode width the session was opened with.
    pub width: usize,
    /// Encode height the session was opened with.
    pub height: usize,
    /// How many frames the lookahead queue may hold.
    pub delay: usize,
    /// Timestamps of the frames submitted but not yet emitted, oldest
    /// first.
    pub pending: Seq<i64>,
    /// Timestamps of every frame submitted, in submission order.
    pub submitted: Seq<i64>,
    /// Timestamps of every output unit emitted, in emission order.
    pub emitted: Seq<i64>,
}

impl EncoderView {
    /// The session invariant: the submitted history splits into what was
    /// emitted and what is still pending, and the queue never exceeds its
    /// depth.
    pub open spec fn wf(self) -> bool {
        &&& self.submitted == self.emitted + self.pending
        &&& self.pending.len() <= self.delay
    }
}

/// The header unit bytes of a session with the given dimensions: a start
/// code followed by both dimensions, high byte first.
pub open spec fn spec_header_bytes(width: usize, height: usize) -> Seq<u8> {
    seq![
        0u8,
        0u8,
        0u8,
        1u8,
        ((width as int / 256) % 256) as u8,
        (width as int % 256) as u8,
        ((height as int / 256) % 256) as u8,
        (height as int % 256) as u8,
    ]
}

/// The payload of one emitted frame unit: a start code and a slice marker.
pub open spec fn spec_frame_unit() -> Seq<u8> {
    seq![0u8, 0u8, 0u8, 1u8, 0x65u8]
}

/// An open encoder session.
pub struct Encoder {
    width: usize,
    height: usize,
    delay: usize,
    pending: Vec<i64>,
    emitted: Ghost<Seq<i64>>,
}

impl View for Encoder {
    type V = EncoderView;

    closed spec fn view(&self) -> EncoderView {
        EncoderView {
            width: self.width,
            height: self.height,
            delay: self.delay,
            pending: self.pending@,
            submitted: self.emitted@ + self.pending@,
            emitted: self.emitted@,
        }
    }
}

impl Encoder {
    /// Opens a session from a configuration. Fails with `OutOfMemory`
    /// exactly when the dimensions are outside the allocatable range. The
    /// configuration is not changed, but the session keeps no reference to
    /// it: only the values it pins here.
    pub fn open(par: &mut Param) -> (r: Result<Encoder, Error>)
        ensures
            *final(par) == *old(par),
            r is Ok <==> spec_dims_allocatable(old(par)@.width, old(par)@.height),
            r matches Err(e) ==> e == Error::OutOfMemory,
            r matches Ok(enc) ==> enc@ == (EncoderView {
                width: old(par)@.width,
                height: old(par)@.height,
                delay: old(par)@.bframes,
                pending: Seq::<i64>::empty(),
                submitted: Seq::<i64>::empty(),
                emitted: Seq::<i64>::empty(),
            }),
            r matches Ok(enc) ==> enc@.wf(),
    {
        let width = par.width();
        let height = par.height();
        if width < 1 || width > crate::colorspace::MAX_DIM || height < 1 || height
            > crate::colorspace::MAX_DIM {
            return Err(Error::OutOfMemory);
        }
        let enc = Encoder {
            width,
            height,
            delay: par.bframes(),
            pending: Vec::new(),
            emitted: Ghost(Seq::empty()),
        };
        proof {
            assert(enc@.submitted =~= Seq::<i64>::empty());
        }
        Ok(enc)
    }

    /// The format-level header unit that must precede the stream. Never
    /// empty, and the session is left unchanged.
    pub fn get_headers(&mut self) -> (r: Result<NalData, Error>)
        ensures
            *final(self) == *old(self),
            r matches Ok(nal) && nal@ == spec_header_bytes(old(self)@.width, old(self)@.height),
    {
        let mut v: Vec<u8> = Vec::new();
        v.push(0);
        v.push(0);
        v.push(0);
        v.push(1);
        v.push(((self.width / 256) % 256) as u8);
        v.push((self.width % 256) as u8);
        v.push(((self.height / 256) % 256) as u8);
        v.push((self.height % 256) as u8);
        proof {
            assert(v@ =~= spec_header_bytes(self@.width, self@.height));
        }
        Ok(NalData::from_vec(v))
    }

    /// Submits a frame (`Some`) or signals end-of-stream (`None`).
    ///
    /// A submitted frame's timestamp joins the lookahead queue; the oldest
    /// queued frame is emitted as an output unit once the queue runs past
    /// its depth, and on every end-of-stream call while frames remain.
    /// `Ok(None)` means the encoder is still buffering — not an error. A
    /// frame whose dimensions differ from the session's fails with
    /// `EncodingFailed` and changes nothing.
    pub fn encode(&mut self, pic: Option<&Picture>) -> (r: Result<
        Option<(NalData, i64, i64)>,
        Error,
    >)
        requires
            old(self)@.wf(),
        ensures
            final(self)@.wf(),
            final(self)@.width == old(self)@.width,
            final(self)@.height == old(self)@.height,
            final(self)@.delay == old(self)@.delay,
            r is Err <==> (pic matches Some(p) && (p@.width != old(self)@.width || p@.height
                != old(self)@.height)),
            r matches Err(e) ==> e == Error::EncodingFailed && final(self)@ == old(self)@,
            (match pic {
                Some(p) => p@.width == old(self)@.width && p@.height == old(self)@.height ==> {
                    let q = old(self)@.pending.push(p@.pts);
                    &&& final(self)@.submitted == old(self)@.submitted.push(p@.pts)
                    &&& if q.len() > old(self)@.delay {
                        &&& final(self)@.pending == q.drop_first()
                        &&& final(self)@.emitted == old(self)@.emitted.push(q[0])
                        &&& (r matches Ok(out) && out matches Some(t) && t.0@ == spec_frame_unit()
                            && t.1 == q[0] && t.2 == q[0])
                    } else {
                        &&& final(self)@.pending == q
                        &&& final(self)@.emitted == old(self)@.emitted
                        &&& (r matches Ok(out) && out is None)
                    }
                },
                None => {
                    if old(self)@.pending.len() > 0 {
                        &&& final(self)@.pending == old(self)@.pending.drop_first()
                        &&& final(self)@.emitted == old(self)@.emitted.push(
                            old(self)@.pending[0],
                        )
                        &&& final(self)@.submitted == old(self)@.submitted
                        &&& (r matches Ok(out) && out matches Some(t) && t.0@
                            == spec_frame_unit() && t.1 == old(self)@.pending[0] && t.2 == old(
                            self,
                        )@.pending[0])
                    } else {
                        &&& final(self)@ == old(self)@
                        &&& (r matches Ok(out) && out is None)
                    }
                },
            }),
    {
        match pic {
            Some(p) => {
                if p.width() != self.width || p.height() != self.height {
                    return Err(Error::EncodingFailed);
                }
                let pts_in = p.timestamp();
                self.pending.push(pts_in);
                if self.pending.len() > self.delay {
                    let first = self.pending.remove(0);
                    proof {
                        self.emitted@ = self.emitted@.push(first);
                        assert(self.pending@ =~= old(self)@.pending.push(pts_in).drop_first());
                        assert(self@.submitted =~= old(self)@.submitted.push(pts_in));
                    }
                    Ok(Some((frame_unit(), first, first)))
                } else {
                    proof {
                        assert(self@.submitted =~= old(self)@.submitted.push(pts_in));
                    }
                    Ok(None)
                }
            },
            None => {
                if self.pending.len() > 0 {
                    let first = self.pending.remove(0);
                    proof {
                        self.emitted@ = self.emitted@.push(first);
                        assert(self.pending@ =~= old(self)@.pending.drop_first());
                        assert(self@.submitted =~= old(self)@.submitted);
                    }
                    Ok(Some((frame_unit(), first, first)))
                } else {
                    Ok(None)
                }
            },
        }
    }

    /// Whether the session still holds buffered frames that have not yet
    /// produced output. Keep calling `encode` with no frame until this is
    /// false to flush the stream.
    pub fn delayed_frames(&self) -> (r: bool)
        ensures
            r == (self@.pending.len() > 0),
    {
        self.pending.len() > 0
    }
}

/// Builds the constant frame-unit payload.
fn frame_unit() -> (r: NalData)
    ensures
        r@ == spec_frame_unit(),
{
    let mut v: Vec<u8> = Vec::new();
    v.push(0);
    v.push(0);
    v.push(0);
    v.push(1);
    v.push(0x65);
    proof {
        assert(v@ =~= spec_frame_unit());
    }
    NalData::from_vec(v)
}

/// Law: every emitted timestamp is one of the submitted ones — the emitted
/// history is always a prefix of the submitted history, so output
/// timestamps never stray outside what was submitted.
pub proof fn lemma_emitted_prefix_of_submitted(e: EncoderView)
    requires
        e.wf(),
    ensures
        e.emitted == e.submitted.take(e.emitted.len() as int),
        forall|i: int| 0 <= i < e.emitted.len() ==> e.emitted[i] == e.submitted[i],
{
    assert(e.emitted =~= (e.emitted + e.pending).take(e.emitted.len() as int));
}

/// Law: once no delayed frames remain, the emitted timestamps are exactly
/// the submitted ones, each exactly once, in submission order.
pub proof fn lemma_flush_complete(e: EncoderView)
    requires
        e.wf(),
        e.pending.len() == 0,
    ensures
        e.emitted == e.submitted,
{
    assert(e.emitted =~= e.emitted + e.pending);
}

} // verus!
