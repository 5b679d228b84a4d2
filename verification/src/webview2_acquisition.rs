//! How the WebView2 producer acquires a frame: start the capture if none is
//! running, nudge the page before its first frame, take a frame out of the pool,
//! and copy it into the shared destination.

use vstd::prelude::*;

use crate::geometry::PhysicalSize;
use crate::platform_call::{CallReply, CallSequence, PlatformCall};
use crate::texture::TextureFormat;
use crate::web_surface::WryWebSurfaceError;
use crate::webview2_composition_producer::{
    CaptureState, ProducerView, WebView2CompositionFrame, WebView2CompositionProducer,
};
use crate::webview2_script::frame_timeout;
use crate::windows_capture::{
    D3D11SharedTextureFactory, DxgiFormat, FramePoolDesc, SharedTextureDesc,
};

verus! {

/// How long the compositor is given to commit content into the visual before it
/// is captured, in milliseconds.
pub const SETTLE_MS: u64 = 500;

/// How long a poll waits for the first frame of a capture, in milliseconds.
pub const FIRST_FRAME_MS: u64 = 500;

/// How long messages are dispatched between two looks into an empty pool, in
/// milliseconds.
pub const PUMP_MS: u64 = 16;

/// The key of the destination's mutex, with which it is locked and unlocked.
pub const DESTINATION_KEY: u64 = 0;

/// How long locking the destination may take, in milliseconds.
pub const LOCK_TIMEOUT_MS: u32 = 500;

/// How long an acquisition waits for a frame.
#[derive(Clone, Copy, Debug, PartialEq, Eq, Structural)]
pub enum FrameWait {
    /// Not at all in steady state, and [`FIRST_FRAME_MS`] for the first frame of
    /// a capture. Without a frame it gives up.
    Poll,
    /// So many milliseconds. Without a frame it fails.
    Within(u64),
}

/// How far an acquisition has come.
#[derive(Clone, Copy, Debug, PartialEq, Eq, Structural)]
pub enum AcquisitionPhase {
    /// The capture is being started.
    Starting,
    /// The compositor is given time to commit content.
    Settling,
    /// The page is being nudged.
    Nudging,
    /// The pool is being looked into.
    Polling,
    /// The pool was empty: messages are dispatched before the next look.
    Pumping,
    /// The captured texture is being taken out of the frame.
    Extracting,
    /// A destination is being allocated for the content.
    Allocating,
    /// The content is being copied into the destination.
    Copying,
    /// Nothing is left to do.
    Ended,
}

/// What a [`FrameAcquisition`] asks of its caller.
#[derive(Clone, Copy, Debug, PartialEq, Eq, Structural)]
pub enum AcquisitionStep {
    /// Make this call and report its reply.
    Call(PlatformCall),
    /// Sleep so many milliseconds, without dispatching messages.
    Sleep(u64),
    /// Dispatch messages for so many milliseconds.
    Pump(u64),
    /// Nothing is left to do.
    Finish,
}

/// What a reply has brought about.
pub enum AcquisitionProgress {
    /// The acquisition goes on.
    Continue,
    /// There is no frame.
    GaveUp,
    /// There is a frame.
    Captured(WebView2CompositionFrame),
}

/// The calls that start the capture of the webview's visual.
pub open spec fn start_calls() -> Seq<PlatformCall> {
    seq![
        PlatformCall::IsCaptureSupported,
        PlatformCall::CastWebviewVisual,
        PlatformCall::CreateItemFromVisual,
        PlatformCall::ReadItemSize,
        PlatformCall::CreateFramePool,
        PlatformCall::CreateCaptureSession,
        PlatformCall::DisableCursorCapture,
        PlatformCall::DisableCaptureBorder,
        PlatformCall::StartCapture,
    ]
}

/// The calls that take the captured texture out of a frame.
pub open spec fn extraction_calls() -> Seq<PlatformCall> {
    seq![
        PlatformCall::ReadContentSize,
        PlatformCall::ReadSurface,
        PlatformCall::CastSurfaceAccess,
        PlatformCall::GetCapturedTexture,
    ]
}

/// The calls that copy the captured texture into the destination and close the
/// frame that it was taken from. The destination is locked for the copy, and
/// unlocked once the GPU has finished it.
pub open spec fn delivery_calls() -> Seq<PlatformCall> {
    seq![
        PlatformCall::BorrowTexture,
        PlatformCall::LockDestination,
        PlatformCall::CopyCapture,
        PlatformCall::AwaitCopy,
        PlatformCall::UnlockDestination,
        PlatformCall::CloseFrame,
    ]
}

/// A frame that is being acquired. It holds the producer until it ends.
#[derive(Debug)]
pub struct FrameAcquisition {
    producer: WebView2CompositionProducer,
    wait: FrameWait,
    phase: AcquisitionPhase,
    deadline_ms: Option<u64>,
    content: PhysicalSize,
    sequence: CallSequence,
}

fn start_sequence() -> (r: CallSequence)
    ensures
        r.calls() == start_calls(),
        r.done() == 0,
{
    let calls = vec![
        PlatformCall::IsCaptureSupported,
        PlatformCall::CastWebviewVisual,
        PlatformCall::CreateItemFromVisual,
        PlatformCall::ReadItemSize,
        PlatformCall::CreateFramePool,
        PlatformCall::CreateCaptureSession,
        PlatformCall::DisableCursorCapture,
        PlatformCall::DisableCaptureBorder,
        PlatformCall::StartCapture,
    ];
    assert(calls@ =~= start_calls());
    CallSequence::new(calls)
}

fn extraction_sequence() -> (r: CallSequence)
    ensures
        r.calls() == extraction_calls(),
        r.done() == 0,
{
    let calls = vec![
        PlatformCall::ReadContentSize,
        PlatformCall::ReadSurface,
        PlatformCall::CastSurfaceAccess,
        PlatformCall::GetCapturedTexture,
    ];
    assert(calls@ =~= extraction_calls());
    CallSequence::new(calls)
}

fn delivery_sequence() -> (r: CallSequence)
    ensures
        r.calls() == delivery_calls(),
        r.done() == 0,
{
    let calls = vec![
        PlatformCall::BorrowTexture,
        PlatformCall::LockDestination,
        PlatformCall::CopyCapture,
        PlatformCall::AwaitCopy,
        PlatformCall::UnlockDestination,
        PlatformCall::CloseFrame,
    ];
    assert(calls@ =~= delivery_calls());
    CallSequence::new(calls)
}

impl FrameWait {
    /// How long this waits for the first frame of a capture.
    pub open spec fn spec_first_frame_limit(self) -> u64 {
        match self {
            FrameWait::Poll => FIRST_FRAME_MS,
            FrameWait::Within(timeout_ms) => timeout_ms,
        }
    }

    /// How long this waits for the first frame of a capture.
    #[verifier::when_used_as_spec(spec_first_frame_limit)]
    pub fn first_frame_limit(self) -> (r: u64)
        ensures
            r == self.first_frame_limit(),
    {
        match self {
            FrameWait::Poll => FIRST_FRAME_MS,
            FrameWait::Within(timeout_ms) => timeout_ms,
        }
    }

    /// Until when this waits for a frame that is not the first, from the given
    /// time on.
    pub open spec fn steady_deadline(self, now_ms: u64) -> Option<u64> {
        match self {
            FrameWait::Poll => None,
            FrameWait::Within(timeout_ms) => Some((now_ms + timeout_ms) as u64),
        }
    }
}

impl WebView2CompositionProducer {
    /// Begins to acquire a frame at the given time: by starting a capture if none
    /// is running, by a nudge before the first frame of a capture, and by a look
    /// into the pool otherwise.
    pub fn begin_acquisition(self, wait: FrameWait, now_ms: u64) -> (r: FrameAcquisition)
        requires
            now_ms + wait.first_frame_limit() <= u64::MAX,
        ensures
            r.begins(self@, wait, now_ms),
    {
        let phase = if !self.is_capturing() {
            AcquisitionPhase::Starting
        } else if self.needs_nudge() {
            AcquisitionPhase::Nudging
        } else {
            AcquisitionPhase::Polling
        };
        let deadline_ms = match wait {
            FrameWait::Poll => None,
            FrameWait::Within(timeout_ms) => Some(now_ms + timeout_ms),
        };
        FrameAcquisition {
            producer: self,
            wait,
            phase,
            deadline_ms,
            content: PhysicalSize::new(0, 0),
            sequence: start_sequence(),
        }
    }

    /// Non-blocking acquire: looks into the pool once, except that it waits a
    /// moment for the first frame of a capture. This is the entry point per
    /// rendered frame: the consumer swaps its texture only when there is a frame.
    pub fn try_acquire_frame(self, now_ms: u64) -> (r: FrameAcquisition)
        requires
            now_ms + FIRST_FRAME_MS <= u64::MAX,
        ensures
            r.begins(self@, FrameWait::Poll, now_ms),
    {
        self.begin_acquisition(FrameWait::Poll, now_ms)
    }

    /// Acquires the next frame within so many milliseconds.
    pub fn acquire_frame_with_timeout(self, timeout_ms: u64, now_ms: u64) -> (r: FrameAcquisition)
        requires
            now_ms + timeout_ms <= u64::MAX,
        ensures
            r.begins(self@, FrameWait::Within(timeout_ms), now_ms),
    {
        self.begin_acquisition(FrameWait::Within(timeout_ms), now_ms)
    }

    /// Acquires the next frame within the time that the producer was configured
    /// with.
    pub fn acquire_full_frame(self, now_ms: u64) -> (r: FrameAcquisition)
        requires
            now_ms + self@.frame_timeout_ms <= u64::MAX,
        ensures
            r.begins(self@, FrameWait::Within(self@.frame_timeout_ms), now_ms),
    {
        let timeout_ms: u64 = self.frame_timeout_ms();
        self.acquire_frame_with_timeout(timeout_ms, now_ms)
    }
}

impl FrameAcquisition {
    /// The producer that this acquisition holds.
    pub closed spec fn producer(&self) -> &WebView2CompositionProducer {
        &self.producer
    }

    /// How long this acquisition waits.
    pub closed spec fn wait(&self) -> FrameWait {
        self.wait
    }

    /// How far this acquisition has come.
    pub closed spec fn spec_phase(&self) -> AcquisitionPhase {
        self.phase
    }

    /// Until when an empty pool is looked into again.
    pub closed spec fn deadline_ms(&self) -> Option<u64> {
        self.deadline_ms
    }

    /// The size of the content, once it has been extracted.
    pub closed spec fn content(&self) -> PhysicalSize {
        self.content
    }

    /// The calls of the current phase.
    pub closed spec fn sequence(&self) -> &CallSequence {
        &self.sequence
    }

    /// The calls are those of the phase and not all done; after the start a
    /// capture is running; and content is copied into a destination of its size.
    pub open spec fn valid(&self) -> bool {
        let calls = self.sequence().calls();
        let done = self.sequence().done();
        &&& match self.phase() {
            AcquisitionPhase::Starting => calls == start_calls() && done < calls.len(),
            AcquisitionPhase::Settling => calls == start_calls() && done == 1,
            AcquisitionPhase::Extracting => calls == extraction_calls() && done < calls.len(),
            AcquisitionPhase::Allocating => {
                &&& calls == crate::windows_capture::shared_texture_calls()
                &&& done < calls.len()
                &&& self.producer()@.dest is None
            },
            AcquisitionPhase::Copying => {
                &&& calls == delivery_calls()
                &&& done < calls.len()
                &&& self.producer()@.has_dest_for(self.content())
            },
            _ => true,
        }
        &&& match self.phase() {
            AcquisitionPhase::Starting => self.producer()@.capture is None,
            AcquisitionPhase::Settling => self.producer()@.capture is None,
            AcquisitionPhase::Ended => true,
            _ => self.producer()@.capture is Some,
        }
    }

    /// Whether this is the acquisition of a frame from `producer` that has just
    /// begun, at the given time: by starting a capture if none is running, by a
    /// nudge before the first frame of a capture, and by a look into the pool
    /// otherwise.
    pub open spec fn begins(&self, producer: ProducerView, wait: FrameWait, now_ms: u64) -> bool {
        &&& self.valid()
        &&& self.producer()@ == producer
        &&& self.wait() == wait
        &&& self.sequence().done() == 0
        &&& self.phase() == (if producer.capture is None {
            AcquisitionPhase::Starting
        } else if producer.needs_nudge() {
            AcquisitionPhase::Nudging
        } else {
            AcquisitionPhase::Polling
        })
        &&& self.phase() is Polling ==> self.deadline_ms() == wait.steady_deadline(now_ms)
    }

    /// The call that is due.
    pub open spec fn due(&self) -> Option<PlatformCall> {
        match self.phase() {
            AcquisitionPhase::Starting => self.sequence().spec_current(),
            AcquisitionPhase::Nudging => Some(PlatformCall::ExecuteScript),
            AcquisitionPhase::Polling => Some(PlatformCall::TryGetNextFrame),
            AcquisitionPhase::Extracting => self.sequence().spec_current(),
            AcquisitionPhase::Allocating => self.sequence().spec_current(),
            AcquisitionPhase::Copying => self.sequence().spec_current(),
            _ => None,
        }
    }

    /// How far this acquisition has come.
    #[verifier::when_used_as_spec(spec_phase)]
    pub fn phase(&self) -> (r: AcquisitionPhase)
        ensures
            r == self.phase(),
    {
        self.phase
    }

    /// What to do next.
    pub fn step(&self) -> (r: AcquisitionStep)
        requires
            self.valid(),
        ensures
            r == (match self.phase() {
                AcquisitionPhase::Settling => AcquisitionStep::Sleep(SETTLE_MS),
                AcquisitionPhase::Pumping => AcquisitionStep::Pump(PUMP_MS),
                AcquisitionPhase::Ended => AcquisitionStep::Finish,
                _ => AcquisitionStep::Call(self.due()->0),
            }),
    {
        match self.phase {
            AcquisitionPhase::Settling => AcquisitionStep::Sleep(SETTLE_MS),
            AcquisitionPhase::Nudging => AcquisitionStep::Call(PlatformCall::ExecuteScript),
            AcquisitionPhase::Polling => AcquisitionStep::Call(PlatformCall::TryGetNextFrame),
            AcquisitionPhase::Pumping => AcquisitionStep::Pump(PUMP_MS),
            AcquisitionPhase::Ended => AcquisitionStep::Finish,
            _ => match self.sequence.current() {
                Some(call) => AcquisitionStep::Call(call),
                None => AcquisitionStep::Finish,
            },
        }
    }

    /// The frame pool to create, once the size of the captured visual is known.
    pub fn frame_pool(&self) -> (r: Option<FramePoolDesc>)
        requires
            self.valid(),
        ensures
            self.due() == Some(PlatformCall::CreateFramePool) ==> r is Some,
            r == (match self.sequence().spec_findings().item {
                Some(size) => Some(FramePoolDesc::for_item(size)),
                None => None,
            }),
    {
        proof {
            if self.due() == Some(PlatformCall::CreateFramePool) {
                assert(self.sequence.calls()[3] == PlatformCall::ReadItemSize);
                if self.sequence.done() <= 3 {
                    assert(start_calls()[self.sequence.done() as int] != PlatformCall::CreateFramePool);
                }
                assert(self.sequence.has_done(PlatformCall::ReadItemSize));
            }
        }
        match self.sequence.findings().item {
            Some(size) => Some(FramePoolDesc::for_item(size)),
            None => None,
        }
    }

    /// The destination texture to create while one is being allocated.
    pub fn destination(&self) -> (r: Option<SharedTextureDesc>)
        ensures
            r == (if self.phase() is Allocating {
                Some(
                    crate::windows_capture::shared_texture_desc(
                        self.content(),
                        DxgiFormat::B8G8R8A8Unorm,
                    ),
                )
            } else {
                None
            }),
    {
        if matches!(self.phase, AcquisitionPhase::Allocating) {
            match D3D11SharedTextureFactory.create_shared_texture_frame(
                self.content,
                TextureFormat::Bgra8Unorm,
                self.producer.generation(),
            ) {
                Ok(work) => work.desc(),
                Err(_) => None,
            }
        } else {
            None
        }
    }

    /// Reports that the sleep or the dispatching of messages is over.
    pub fn resumed(&mut self)
        requires
            old(self).valid(),
            old(self).phase() is Settling || old(self).phase() is Pumping,
        ensures
            final(self).valid(),
            final(self).producer() == old(self).producer(),
            final(self).wait() == old(self).wait(),
            final(self).deadline_ms() == old(self).deadline_ms(),
            final(self).sequence() == old(self).sequence(),
            final(self).phase() == (if old(self).phase() is Settling {
                AcquisitionPhase::Starting
            } else {
                AcquisitionPhase::Polling
            }),
    {
        self.phase = match self.phase {
            AcquisitionPhase::Settling => AcquisitionPhase::Starting,
            _ => AcquisitionPhase::Polling,
        };
    }

    /// Whether an empty pool is looked into again at the given time.
    pub open spec fn waits_on(&self, now_ms: u64) -> bool {
        self.deadline_ms() matches Some(deadline_ms) && now_ms < deadline_ms
    }

    /// Whether the reply that is due completes the calls of the current phase.
    pub open spec fn at_last_call(&self) -> bool {
        self.sequence().done() + 1 == self.sequence().calls().len()
    }

    /// What the accepted replies of the current phase give, `reply` included.
    pub open spec fn found_with(&self, reply: &CallReply) -> crate::platform_call::Findings {
        self.sequence().spec_findings().with(self.due()->0, reply)
    }

    /// The phase after `reply`, where it neither fails nor gives up.
    pub open spec fn next_phase(&self, reply: &CallReply) -> AcquisitionPhase {
        match self.phase() {
            AcquisitionPhase::Starting => if self.sequence().done() == 0 {
                AcquisitionPhase::Settling
            } else if self.at_last_call() {
                AcquisitionPhase::Nudging
            } else {
                AcquisitionPhase::Starting
            },
            AcquisitionPhase::Nudging => AcquisitionPhase::Polling,
            AcquisitionPhase::Polling => if reply is Failed {
                AcquisitionPhase::Pumping
            } else {
                AcquisitionPhase::Extracting
            },
            AcquisitionPhase::Extracting => if !self.at_last_call() {
                AcquisitionPhase::Extracting
            } else if self.producer()@.has_dest_for(self.found_with(reply).content->0.unsigned()) {
                AcquisitionPhase::Copying
            } else {
                AcquisitionPhase::Allocating
            },
            AcquisitionPhase::Allocating => if self.at_last_call() {
                AcquisitionPhase::Copying
            } else {
                AcquisitionPhase::Allocating
            },
            AcquisitionPhase::Copying => if self.at_last_call() {
                AcquisitionPhase::Ended
            } else {
                AcquisitionPhase::Copying
            },
            phase => phase,
        }
    }

    /// The producer after an accepted `reply`.
    pub open spec fn next_producer(&self, reply: &CallReply) -> ProducerView {
        let producer = self.producer()@;
        if !self.at_last_call() {
            producer
        } else {
            match self.phase() {
                AcquisitionPhase::Starting => ProducerView {
                    capture: Some(CaptureState { first_frame_emitted: false }),
                    ..producer
                },
                AcquisitionPhase::Extracting => producer.with_content(
                    self.found_with(reply).content->0.unsigned(),
                ),
                AcquisitionPhase::Allocating => producer.with_new_dest(
                    self.content(),
                    self.found_with(reply).handle->0,
                ),
                AcquisitionPhase::Copying => producer.handed_over(),
                _ => producer,
            }
        }
    }

    /// Whether this is what `before` becomes when the reply to a look into the pool
    /// is reported at the given time and answered with `r`.
    pub open spec fn follows_poll(
        &self,
        before: &FrameAcquisition,
        reply: &CallReply,
        now_ms: u64,
        r: Result<AcquisitionProgress, WryWebSurfaceError>,
    ) -> bool {
        &&& self.producer() == before.producer()
        &&& self.deadline_ms() == before.deadline_ms()
        &&& if reply is Failed && !before.waits_on(now_ms) {
            &&& self.phase() is Ended
            &&& match before.wait() {
                FrameWait::Poll => r matches Ok(AcquisitionProgress::GaveUp),
                FrameWait::Within(timeout_ms) => r matches Err(error) && error.is_platform(
                    crate::webview2_script::frame_timeout_text(
                        crate::webview2_script::duration_text(timeout_ms),
                        before.producer()@.size,
                        reply->Failed_0@,
                    ),
                ),
            }
        } else {
            &&& r matches Ok(AcquisitionProgress::Continue)
            &&& self.phase() == before.next_phase(reply)
            &&& reply is Done ==> self.sequence().done() == 0
        }
    }

    /// Whether this is what `before` becomes when the reply to any other call but a
    /// nudge is reported and answered with `r`.
    pub open spec fn follows_call(
        &self,
        before: &FrameAcquisition,
        reply: &CallReply,
        r: Result<AcquisitionProgress, WryWebSurfaceError>,
    ) -> bool {
        let call = before.due()->0;
        &&& r is Ok <==> call.accepts(*reply)
        &&& r matches Err(error) ==> {
            &&& call.reports(*reply, error)
            &&& self.phase() is Ended
            &&& self.producer() == before.producer()
        }
        &&& r matches Ok(progress) ==> {
            &&& self.phase() == before.next_phase(reply)
            &&& self.producer()@ == before.next_producer(reply)
            &&& self.sequence().calls() == before.sequence().calls() ==> {
                &&& self.sequence().done() == before.sequence().done() + 1
                &&& self.sequence().spec_findings() == before.found_with(reply)
            }
            &&& self.sequence().calls() != before.sequence().calls() ==> self.sequence().done()
                == 0
            &&& self.content() == (if before.phase() is Extracting && before.at_last_call() {
                before.found_with(reply).content->0.unsigned()
            } else {
                before.content()
            })
            &&& match progress {
                AcquisitionProgress::Captured(frame) => {
                    &&& before.phase() is Copying
                    &&& before.at_last_call()
                    &&& before.producer()@.hands_over(frame)
                },
                AcquisitionProgress::Continue => !(before.phase() is Copying
                    && before.at_last_call()),
                AcquisitionProgress::GaveUp => false,
            }
        }
    }

    /// Reports the reply to the call that was due, at the given time.
    ///
    /// A nudge may fail: the page may still paint on its own. An empty pool is
    /// looked into again before the deadline; after it, a poll gives up and any
    /// other wait fails. Every other call that fails ends the acquisition. What
    /// the producer has noted by then stays noted.
    pub fn report(&mut self, reply: &CallReply, now_ms: u64) -> (r: Result<
        AcquisitionProgress,
        WryWebSurfaceError,
    >)
        requires
            old(self).valid(),
            old(self).due() matches Some(call) && call.fits(reply),
            old(self).phase() is Nudging ==> now_ms + old(self).wait().first_frame_limit()
                <= u64::MAX,
        ensures
            final(self).valid(),
            final(self).wait() == old(self).wait(),
            match old(self).phase() {
                AcquisitionPhase::Nudging => {
                    &&& r matches Ok(AcquisitionProgress::Continue)
                    &&& final(self).phase() is Polling
                    &&& final(self).producer() == old(self).producer()
                    &&& final(self).deadline_ms() == Some(
                        (now_ms + old(self).wait().first_frame_limit()) as u64,
                    )
                },
                AcquisitionPhase::Polling => final(self).follows_poll(old(self), reply, now_ms, r),
                _ => final(self).follows_call(old(self), reply, r),
            },
    {
        match self.phase {
            AcquisitionPhase::Nudging => {
                self.deadline_ms = Some(now_ms + self.wait.first_frame_limit());
                self.phase = AcquisitionPhase::Polling;
                Ok(AcquisitionProgress::Continue)
            },
            AcquisitionPhase::Polling => self.report_poll(reply, now_ms),
            _ => self.report_call(reply),
        }
    }

    fn report_poll(&mut self, reply: &CallReply, now_ms: u64) -> (r: Result<
        AcquisitionProgress,
        WryWebSurfaceError,
    >)
        requires
            old(self).valid(),
            old(self).phase() is Polling,
            PlatformCall::TryGetNextFrame.fits(reply),
        ensures
            final(self).valid(),
            final(self).wait() == old(self).wait(),
            final(self).follows_poll(old(self), reply, now_ms, r),
    {
        match reply {
            CallReply::Failed(cause) => {
                let waits_on = match self.deadline_ms {
                    Some(deadline_ms) => now_ms < deadline_ms,
                    None => false,
                };
                if waits_on {
                    self.phase = AcquisitionPhase::Pumping;
                    return Ok(AcquisitionProgress::Continue);
                }
                self.phase = AcquisitionPhase::Ended;
                match self.wait {
                    FrameWait::Poll => Ok(AcquisitionProgress::GaveUp),
                    FrameWait::Within(timeout_ms) => Err(
                        frame_timeout(timeout_ms, self.producer.size(), cause.as_str()),
                    ),
                }
            },
            _ => {
                self.sequence = extraction_sequence();
                self.phase = AcquisitionPhase::Extracting;
                Ok(AcquisitionProgress::Continue)
            },
        }
    }

    fn report_call(&mut self, reply: &CallReply) -> (r: Result<
        AcquisitionProgress,
        WryWebSurfaceError,
    >)
        requires
            old(self).valid(),
            old(self).due() matches Some(call) && call.fits(reply),
            !(old(self).phase() is Nudging),
            !(old(self).phase() is Polling),
        ensures
            final(self).valid(),
            final(self).wait() == old(self).wait(),
            final(self).follows_call(old(self), reply, r),
    {
        let first = matches!(self.sequence.current(), Some(PlatformCall::IsCaptureSupported));
        match self.sequence.report(reply) {
            Ok(()) => {},
            Err(error) => {
                self.phase = AcquisitionPhase::Ended;
                return Err(error);
            },
        }
        proof {
            assert(start_calls()[0] == PlatformCall::IsCaptureSupported);
            if old(self).phase() is Starting && old(self).sequence().done() > 0 {
                assert(start_calls()[old(self).sequence().done() as int]
                    != PlatformCall::IsCaptureSupported);
            }
        }
        if self.sequence.current().is_some() {
            if matches!(self.phase, AcquisitionPhase::Starting) && first {
                self.phase = AcquisitionPhase::Settling;
            }
            return Ok(AcquisitionProgress::Continue);
        }
        match self.phase {
            AcquisitionPhase::Starting => {
                self.producer.capture_started();
                self.phase = AcquisitionPhase::Nudging;
                Ok(AcquisitionProgress::Continue)
            },
            AcquisitionPhase::Extracting => {
                assert(self.sequence.calls()[0] == PlatformCall::ReadContentSize);
                assert(self.sequence.has_done(PlatformCall::ReadContentSize));
                if let Some(content) = self.sequence.findings().content {
                    self.content = content.unsigned();
                }
                if self.producer.note_content(self.content) {
                    if let Ok(work) = D3D11SharedTextureFactory.create_shared_texture_frame(
                        self.content,
                        TextureFormat::Bgra8Unorm,
                        self.producer.generation(),
                    ) {
                        self.sequence = work.into_sequence();
                    }
                    self.phase = AcquisitionPhase::Allocating;
                } else {
                    self.sequence = delivery_sequence();
                    self.phase = AcquisitionPhase::Copying;
                }
                Ok(AcquisitionProgress::Continue)
            },
            AcquisitionPhase::Allocating => {
                assert(self.sequence.calls()[3] == PlatformCall::CreateSharedHandle);
                assert(self.sequence.has_done(PlatformCall::CreateSharedHandle));
                if let Some(shared_handle) = self.sequence.findings().handle {
                    self.producer.store_dest(self.content, shared_handle);
                }
                self.sequence = delivery_sequence();
                self.phase = AcquisitionPhase::Copying;
                Ok(AcquisitionProgress::Continue)
            },
            _ => {
                self.phase = AcquisitionPhase::Ended;
                match self.producer.hand_over() {
                    Some(frame) => Ok(AcquisitionProgress::Captured(frame)),
                    None => Ok(AcquisitionProgress::GaveUp),
                }
            },
        }
    }

    /// Gives the producer back.
    pub fn into_producer(self) -> (r: WebView2CompositionProducer)
        ensures
            r == self.producer(),
    {
        self.producer
    }
}

/// A wait lasts until its deadline and not longer: a look into an empty pool fails
/// exactly from then on, and is repeated before.
pub proof fn wait_ends_at_the_deadline(
    before: &FrameAcquisition,
    after: &FrameAcquisition,
    timeout_ms: u64,
    deadline_ms: u64,
    reply: &CallReply,
    now_ms: u64,
    r: Result<AcquisitionProgress, WryWebSurfaceError>,
)
    requires
        before.phase() is Polling,
        before.wait() == FrameWait::Within(timeout_ms),
        before.deadline_ms() == Some(deadline_ms),
        reply is Failed,
        after.follows_poll(before, reply, now_ms, r),
    ensures
        r is Err <==> now_ms >= deadline_ms,
        r is Ok ==> after.phase() is Pumping,
{
}

/// The consumer never reads a copy that is under way: a frame is handed over only
/// after the destination was locked, copied into, waited for and unlocked, in this
/// order, and the captured frame was closed.
pub proof fn frame_is_handed_over_after_its_copy(
    before: &FrameAcquisition,
    after: &FrameAcquisition,
    reply: &CallReply,
    frame: WebView2CompositionFrame,
)
    requires
        before.valid(),
        before.due() matches Some(call) && call.fits(reply),
        !(before.phase() is Nudging),
        !(before.phase() is Polling),
        after.follows_call(before, reply, Ok(AcquisitionProgress::Captured(frame))),
    ensures
        before.due() == Some(PlatformCall::CloseFrame),
        before.sequence().done() == 5,
        before.sequence().calls().take(5) == seq![
            PlatformCall::BorrowTexture,
            PlatformCall::LockDestination,
            PlatformCall::CopyCapture,
            PlatformCall::AwaitCopy,
            PlatformCall::UnlockDestination,
        ],
{
}

/// A captured frame is described as the destination that it was copied into: where
/// `desc` is what a destination for the content was created with, the native frame has
/// its size, and a format whose DXGI format is the one in `desc`.
pub proof fn captured_frame_describes_its_destination(
    allocating: &FrameAcquisition,
    desc: SharedTextureDesc,
    copying: &mut FrameAcquisition,
    reply: &CallReply,
    now_ms: u64,
    frame: WebView2CompositionFrame,
)
    requires
        allocating.phase() is Allocating,
        call_ensures(FrameAcquisition::destination, (allocating,), Some(desc)),
        copying.valid(),
        copying.phase() is Copying,
        copying.content() == allocating.content(),
        copying.due() matches Some(call) && call.fits(reply),
        call_ensures(
            FrameAcquisition::report,
            (copying, reply, now_ms),
            Ok::<AcquisitionProgress, WryWebSurfaceError>(AcquisitionProgress::Captured(frame)),
        ),
    ensures
        frame.frame matches crate::web_surface::WryWebSurfaceFrame::Native(
            crate::interop::NativeFrame::Dx12SharedTexture(native),
        ) && {
            &&& crate::windows_capture::dxgi_format(native.format) == Some(desc.format)
            &&& native.format == TextureFormat::Bgra8Unorm
            &&& native.size == desc.size
            &&& native.handle == frame.shared_handle
            &&& native.generation == frame.generation
            &&& native.producer_sync == crate::sync::SyncMechanism::Unsynchronized
        },
        desc.format == DxgiFormat::B8G8R8A8Unorm,
        desc.size == old(copying).content(),
        desc.shared_nt_handle && desc.shared_keyed_mutex,
        frame.content_size == desc.size,
        frame.generation == old(copying).producer()@.generation,
        final(copying).phase() is Ended,
        final(copying).producer()@.dest matches Some(dest) && dest.handle_handed_off,
{
}

/// The calls of a phase lead on to the next: a started capture is settled, noted and
/// nudged; content is numbered, and copied at once where the destination has its size
/// and after a new one has been allocated where it has not; a new destination has the
/// content's size and the handle that was exported; and a copied frame is handed over.
pub proof fn phases_lead_on(
    acquisition: &mut FrameAcquisition,
    reply: &CallReply,
    now_ms: u64,
    progress: AcquisitionProgress,
)
    requires
        acquisition.valid(),
        acquisition.due() matches Some(call) && call.fits(reply),
        !(acquisition.phase() is Nudging),
        !(acquisition.phase() is Polling),
        call_ensures(
            FrameAcquisition::report,
            (acquisition, reply, now_ms),
            Ok::<AcquisitionProgress, WryWebSurfaceError>(progress),
        ),
    ensures
        ({
            let before = *old(acquisition);
            let after = *final(acquisition);
            let last = before.sequence().done() + 1 == before.sequence().calls().len();
            let was = before.producer()@;
            let now = after.producer()@;
            &&& !last ==> now == was && (after.phase() == before.phase()
                || before.sequence().done() == 0 && before.phase() is Starting && after.phase()
                is Settling)
            &&& before.phase() is Starting && before.sequence().done() == 0 ==> after.phase()
                is Settling
            &&& before.phase() is Starting && last ==> {
                &&& after.phase() is Nudging
                &&& now.capture matches Some(capture) && !capture.first_frame_emitted
                &&& now.dest == was.dest
                &&& now.generation == was.generation
            }
            &&& before.phase() is Extracting && last && was.generation < u64::MAX
                ==> now.generation == was.generation + 1
            &&& before.phase() is Extracting && last ==> {
                &&& after.phase() is Copying <==> (was.dest matches Some(dest) && dest.size
                    == after.content())
                &&& after.phase() is Allocating <==> !(was.dest matches Some(dest) && dest.size
                    == after.content())
                &&& before.sequence().spec_findings().content matches Some(read) ==> {
                    &&& read.width >= 0 && reply is Done ==> after.content().width == read.width
                    &&& read.height >= 0 && reply is Done ==> after.content().height == read.height
                }
            }
            &&& before.phase() is Allocating && last ==> {
                &&& after.phase() is Copying
                &&& now.dest matches Some(dest) && dest.size == before.content()
                    && !dest.handle_handed_off
                &&& reply matches CallReply::Handle(handle) ==> now.dest->0.shared_handle == *handle
                &&& now.generation == was.generation
            }
            &&& before.phase() is Copying && last ==> after.phase() is Ended
            &&& progress is Captured <==> before.phase() is Copying && last
            &&& !(progress is GaveUp)
        }),
{
}

/// A call that fails ends the acquisition, and the producer is as it was: content that
/// was numbered stays numbered, and a destination that was allocated stays.
pub proof fn failed_call_ends_the_acquisition(
    acquisition: &mut FrameAcquisition,
    reply: &CallReply,
    now_ms: u64,
    error: WryWebSurfaceError,
)
    requires
        acquisition.valid(),
        acquisition.due() matches Some(call) && call.fits(reply),
        !(acquisition.phase() is Nudging),
        !(acquisition.phase() is Polling),
        call_ensures(
            FrameAcquisition::report,
            (acquisition, reply, now_ms),
            Err::<AcquisitionProgress, WryWebSurfaceError>(error),
        ),
    ensures
        final(acquisition).phase() is Ended,
        final(acquisition).producer() == old(acquisition).producer(),
        !(reply is Done) && !(reply is Handle),
{
}

/// A nudge leads to a look into the pool, whether it worked or not, and from then on
/// the first frame is waited for: half a second by a poll, and as long as was given by
/// any other wait.
pub proof fn first_frame_is_waited_for(
    acquisition: &mut FrameAcquisition,
    reply: &CallReply,
    now_ms: u64,
    r: Result<AcquisitionProgress, WryWebSurfaceError>,
)
    requires
        acquisition.valid(),
        acquisition.phase() is Nudging,
        PlatformCall::ExecuteScript.fits(reply),
        now_ms + acquisition.wait().first_frame_limit() <= u64::MAX,
        call_ensures(FrameAcquisition::report, (acquisition, reply, now_ms), r),
    ensures
        r is Ok && r->Ok_0 is Continue,
        final(acquisition).phase() is Polling,
        final(acquisition).producer() == old(acquisition).producer(),
        final(acquisition).deadline_ms() matches Some(deadline) && match old(acquisition).wait() {
            FrameWait::Poll => deadline == now_ms + 500,
            FrameWait::Within(timeout_ms) => deadline == now_ms + timeout_ms,
        },
{
}

/// A look into the pool takes a frame wherever there is one. Into an empty pool it is
/// repeated before the deadline; from then on, and at once where there is none, a poll
/// gives up and any other wait fails.
pub proof fn empty_pool_is_looked_into_until_the_deadline(
    acquisition: &mut FrameAcquisition,
    reply: &CallReply,
    now_ms: u64,
    r: Result<AcquisitionProgress, WryWebSurfaceError>,
)
    requires
        acquisition.valid(),
        acquisition.phase() is Polling,
        reply is Done || reply is Failed,
        call_ensures(FrameAcquisition::report, (acquisition, reply, now_ms), r),
    ensures
        ({
            let in_time = old(acquisition).deadline_ms() matches Some(deadline) && now_ms
                < deadline;
            &&& reply is Done ==> r is Ok && r->Ok_0 is Continue && final(acquisition).phase()
                is Extracting && final(acquisition).sequence().done() == 0
            &&& reply is Failed && in_time ==> r is Ok && r->Ok_0 is Continue
                && final(acquisition).phase() is Pumping
            &&& reply is Failed && !in_time ==> final(acquisition).phase() is Ended
            &&& reply is Failed && !in_time && old(acquisition).wait() is Poll ==> r is Ok
                && r->Ok_0 is GaveUp
            &&& reply is Failed && !in_time && old(acquisition).wait() is Within ==> r is Err
            &&& final(acquisition).producer() == old(acquisition).producer()
        }),
{
}

/// An acquisition begins where the producer is: with the start of a capture where none
/// is running, with a nudge before the first frame of one that is, and with a look into
/// the pool otherwise, which for a poll is the only one. All three ways to acquire
/// differ in how long they wait and in nothing else.
pub proof fn acquisition_begins_where_the_producer_is(
    producer: WebView2CompositionProducer,
    timeout_ms: u64,
    now_ms: u64,
    poll: FrameAcquisition,
    within: FrameAcquisition,
    full: FrameAcquisition,
)
    requires
        now_ms + 500 <= u64::MAX,
        now_ms + timeout_ms <= u64::MAX,
        now_ms + producer@.frame_timeout_ms <= u64::MAX,
        call_ensures(WebView2CompositionProducer::try_acquire_frame, (producer, now_ms), poll),
        call_ensures(
            WebView2CompositionProducer::acquire_frame_with_timeout,
            (producer, timeout_ms, now_ms),
            within,
        ),
        call_ensures(WebView2CompositionProducer::acquire_full_frame, (producer, now_ms), full),
    ensures
        poll.producer()@ == producer@,
        within.producer()@ == producer@,
        full.producer()@ == producer@,
        poll.phase() is Starting <==> producer@.capture is None,
        poll.phase() is Nudging <==> (producer@.capture matches Some(capture)
            && !capture.first_frame_emitted),
        poll.phase() is Polling <==> (producer@.capture matches Some(capture)
            && capture.first_frame_emitted),
        within.phase() == poll.phase(),
        full.phase() == poll.phase(),
        poll.wait() == FrameWait::Poll,
        within.wait() == FrameWait::Within(timeout_ms),
        full.wait() == FrameWait::Within(producer@.frame_timeout_ms),
        poll.phase() is Polling ==> poll.deadline_ms() is None,
        poll.phase() is Polling ==> within.deadline_ms() == Some((now_ms + timeout_ms) as u64),
{
}

/// What is asked for next is what the phase needs: a script to nudge, a look to poll,
/// half a second to settle, and the calls of the list in their turn otherwise.
pub proof fn phase_decides_the_step(acquisition: &FrameAcquisition, step: AcquisitionStep)
    requires
        acquisition.valid(),
        call_ensures(FrameAcquisition::step, (acquisition,), step),
    ensures
        acquisition.phase() is Settling <==> step == AcquisitionStep::Sleep(500),
        acquisition.phase() is Pumping <==> step == AcquisitionStep::Pump(16),
        acquisition.phase() is Ended <==> step is Finish,
        acquisition.phase() is Nudging ==> step == AcquisitionStep::Call(
            PlatformCall::ExecuteScript,
        ),
        acquisition.phase() is Polling ==> step == AcquisitionStep::Call(
            PlatformCall::TryGetNextFrame,
        ),
        acquisition.phase() is Starting || acquisition.phase() is Extracting || acquisition.phase()
            is Allocating || acquisition.phase() is Copying ==> step == AcquisitionStep::Call(
            acquisition.sequence().calls()[acquisition.sequence().done() as int],
        ),
{
}

/// The pool of a capture has two buffers of just the captured visual's size.
pub proof fn pool_fits_the_visual(acquisition: &FrameAcquisition, pool: Option<FramePoolDesc>)
    requires
        acquisition.valid(),
        call_ensures(FrameAcquisition::frame_pool, (acquisition,), pool),
    ensures
        pool is Some <==> acquisition.sequence().spec_findings().item is Some,
        pool matches Some(desc) ==> desc.buffers == 2 && Some(desc.size)
            == acquisition.sequence().spec_findings().item,
{
}

/// After a rest the acquisition goes on where it was: a start goes on starting, and an
/// empty pool is looked into again. Nothing else changes.
pub proof fn rest_changes_nothing_else(acquisition: &mut FrameAcquisition)
    requires
        acquisition.valid(),
        acquisition.phase() is Settling || acquisition.phase() is Pumping,
        call_ensures(FrameAcquisition::resumed, (acquisition,), ()),
    ensures
        old(acquisition).phase() is Settling ==> final(acquisition).phase() is Starting,
        old(acquisition).phase() is Pumping ==> final(acquisition).phase() is Polling,
        final(acquisition).producer() == old(acquisition).producer(),
        final(acquisition).deadline_ms() == old(acquisition).deadline_ms(),
        final(acquisition).sequence() == old(acquisition).sequence(),
{
}

/// A capture is started on a visual that is there: the item is made from it and its
/// size read before the pool, and the session is started last. A frame is closed after
/// its content has been copied, and the copy is made while the destination is locked
/// and waited for before it is unlocked.
pub proof fn capture_makes_before_it_uses(
    starting: Seq<PlatformCall>,
    extracting: Seq<PlatformCall>,
    delivering: Seq<PlatformCall>,
)
    requires
        starting == start_calls(),
        extracting == extraction_calls(),
        delivering == delivery_calls(),
    ensures
        starting.no_duplicates() && extracting.no_duplicates() && delivering.no_duplicates(),
        starting.len() == 9 && starting.last() == PlatformCall::StartCapture,
        starting[0] == PlatformCall::IsCaptureSupported,
        crate::platform_call::comes_before(
            starting,
            PlatformCall::CreateItemFromVisual,
            PlatformCall::ReadItemSize,
        ),
        crate::platform_call::comes_before(
            starting,
            PlatformCall::ReadItemSize,
            PlatformCall::CreateFramePool,
        ),
        crate::platform_call::comes_before(
            starting,
            PlatformCall::CreateFramePool,
            PlatformCall::CreateCaptureSession,
        ),
        extracting.contains(PlatformCall::ReadContentSize),
        extracting.last() == PlatformCall::GetCapturedTexture,
        crate::platform_call::comes_before(
            delivering,
            PlatformCall::LockDestination,
            PlatformCall::CopyCapture,
        ),
        crate::platform_call::comes_before(
            delivering,
            PlatformCall::CopyCapture,
            PlatformCall::AwaitCopy,
        ),
        crate::platform_call::comes_before(
            delivering,
            PlatformCall::AwaitCopy,
            PlatformCall::UnlockDestination,
        ),
        delivering.last() == PlatformCall::CloseFrame,
{
    assert(starting[2] == PlatformCall::CreateItemFromVisual);
    assert(starting[3] == PlatformCall::ReadItemSize);
    assert(starting[4] == PlatformCall::CreateFramePool);
    assert(starting[5] == PlatformCall::CreateCaptureSession);
    crate::platform_call::earlier_call_comes_before(starting, 2, 3);
    crate::platform_call::earlier_call_comes_before(starting, 3, 4);
    crate::platform_call::earlier_call_comes_before(starting, 4, 5);
    assert(extracting[0] == PlatformCall::ReadContentSize);
    assert(delivering[1] == PlatformCall::LockDestination);
    assert(delivering[2] == PlatformCall::CopyCapture);
    assert(delivering[3] == PlatformCall::AwaitCopy);
    assert(delivering[4] == PlatformCall::UnlockDestination);
    crate::platform_call::earlier_call_comes_before(delivering, 1, 2);
    crate::platform_call::earlier_call_comes_before(delivering, 2, 3);
    crate::platform_call::earlier_call_comes_before(delivering, 3, 4);
}

} // verus!
