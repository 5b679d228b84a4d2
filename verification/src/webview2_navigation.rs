//! A navigation of the WebView2 producer, from the request to the first render
//! tick of the page.

use vstd::prelude::*;

use crate::platform_call::{CallReply, PlatformCall};
use crate::web_surface::WryWebSurfaceError;
use crate::webview2_composition_producer::WebView2CompositionProducer;
use crate::webview2_script::navigation_timeout;

verus! {

/// How long messages are left alone between two looks at them, in milliseconds.
pub const MESSAGE_INTERVAL_MS: u64 = 16;

/// How far a navigation has come.
#[derive(Clone, Copy, Debug, PartialEq, Eq, Structural)]
pub enum NavigationPhase {
    /// The handler is being added.
    Listening,
    /// The page is being requested.
    Requesting,
    /// The end of the navigation is awaited until the given time.
    Waiting { deadline_ms: u64 },
    /// The handler is being removed; the page has loaded or it has not.
    Unlistening { completed: bool },
    /// The first render tick is awaited.
    Ticking,
    /// Nothing is left to do.
    Ended,
}

/// What a [`Navigation`] asks of its caller.
#[derive(Clone, Copy, Debug, PartialEq, Eq, Structural)]
pub enum NavigationStep {
    /// Make this call and report its reply.
    Call(PlatformCall),
    /// Look whether the navigation has ended, and report it.
    Poll,
    /// Nothing is left to do.
    Finish,
}

/// What a caller does after a look that found the navigation still going on.
#[derive(Clone, Copy, Debug, PartialEq, Eq, Structural)]
pub enum WaitAdvice {
    /// Go on with [`Navigation::step`].
    Proceed,
    /// Dispatch the messages that are there, reporting a look after each, sleep
    /// for [`MESSAGE_INTERVAL_MS`] and look again.
    DispatchMessages,
}

/// A navigation to inline HTML.
#[derive(Debug)]
pub struct Navigation {
    html: String,
    timeout_ms: u64,
    phase: NavigationPhase,
}

impl Navigation {
    /// The document to navigate to.
    pub closed spec fn html_text(&self) -> Seq<char> {
        self.html@
    }

    /// How long the navigation may take.
    pub closed spec fn timeout_ms(&self) -> u64 {
        self.timeout_ms
    }

    /// How far the navigation has come.
    pub closed spec fn spec_phase(&self) -> NavigationPhase {
        self.phase
    }

    /// The call that is due in the given phase.
    pub open spec fn due(phase: NavigationPhase) -> Option<PlatformCall> {
        match phase {
            NavigationPhase::Listening => Some(PlatformCall::AddNavigationHandler),
            NavigationPhase::Requesting => Some(PlatformCall::NavigateToString),
            NavigationPhase::Unlistening { .. } => Some(PlatformCall::RemoveNavigationHandler),
            NavigationPhase::Ticking => Some(PlatformCall::ExecuteScript),
            _ => None,
        }
    }

    /// How far the navigation has come.
    #[verifier::when_used_as_spec(spec_phase)]
    pub fn phase(&self) -> (r: NavigationPhase)
        ensures
            r == self.phase(),
    {
        self.phase
    }

    /// The document to navigate to.
    pub fn html(&self) -> (r: &str)
        ensures
            r@ == self.html_text(),
    {
        self.html.as_str()
    }

    /// What to do next.
    pub fn step(&self) -> (r: NavigationStep)
        ensures
            r == (match Navigation::due(self.phase()) {
                Some(call) => NavigationStep::Call(call),
                None => if self.phase() is Ended {
                    NavigationStep::Finish
                } else {
                    NavigationStep::Poll
                },
            }),
    {
        match self.phase {
            NavigationPhase::Listening => NavigationStep::Call(PlatformCall::AddNavigationHandler),
            NavigationPhase::Requesting => NavigationStep::Call(PlatformCall::NavigateToString),
            NavigationPhase::Waiting { .. } => NavigationStep::Poll,
            NavigationPhase::Unlistening { .. } => NavigationStep::Call(
                PlatformCall::RemoveNavigationHandler,
            ),
            NavigationPhase::Ticking => NavigationStep::Call(PlatformCall::ExecuteScript),
            NavigationPhase::Ended => NavigationStep::Finish,
        }
    }

    /// Reports the reply to the call that was due, at the given time.
    ///
    /// A call that fails ends the navigation, except that the handler need not
    /// come off. The time for the page runs from when it has been requested. Once
    /// the handler is off, a navigation that ran out of time is reported, and any
    /// other waits for its render tick.
    pub fn report(&mut self, reply: &CallReply, now_ms: u64) -> (r: Result<(), WryWebSurfaceError>)
        requires
            Navigation::due(old(self).phase()) matches Some(call) && call.fits(reply),
            old(self).phase() is Requesting && !(reply is Failed) ==> now_ms + old(self).timeout_ms() <= u64::MAX,
        ensures
            final(self).html_text() == old(self).html_text(),
            final(self).timeout_ms() == old(self).timeout_ms(),
            match old(self).phase() {
                NavigationPhase::Unlistening { completed } => {
                    &&& r is Ok <==> completed
                    &&& final(self).phase() == (if completed {
                        NavigationPhase::Ticking
                    } else {
                        NavigationPhase::Ended
                    })
                    &&& r matches Err(error) ==> error.is_platform(
                        "WebView2 navigation did not complete within "@
                            + crate::webview2_script::duration_text(old(self).timeout_ms()),
                    )
                },
                phase => {
                    let call = Navigation::due(phase)->0;
                    &&& r is Ok <==> call.accepts(*reply)
                    &&& r matches Err(error) ==> call.reports(*reply, error)
                    &&& final(self).phase() == (if r is Err {
                        NavigationPhase::Ended
                    } else {
                        match phase {
                            NavigationPhase::Listening => NavigationPhase::Requesting,
                            NavigationPhase::Requesting => NavigationPhase::Waiting {
                                deadline_ms: (now_ms + old(self).timeout_ms()) as u64,
                            },
                            _ => NavigationPhase::Ended,
                        }
                    })
                },
            },
    {
        match self.phase {
            NavigationPhase::Listening => {
                let r = PlatformCall::AddNavigationHandler.judge(reply);
                self.phase = if r.is_ok() {
                    NavigationPhase::Requesting
                } else {
                    NavigationPhase::Ended
                };
                r
            },
            NavigationPhase::Requesting => {
                let r = PlatformCall::NavigateToString.judge(reply);
                self.phase = if r.is_ok() {
                    NavigationPhase::Waiting { deadline_ms: now_ms + self.timeout_ms }
                } else {
                    NavigationPhase::Ended
                };
                r
            },
            NavigationPhase::Unlistening { completed } => {
                if completed {
                    self.phase = NavigationPhase::Ticking;
                    Ok(())
                } else {
                    self.phase = NavigationPhase::Ended;
                    Err(navigation_timeout(self.timeout_ms))
                }
            },
            NavigationPhase::Ticking => {
                self.phase = NavigationPhase::Ended;
                PlatformCall::ExecuteScript.judge(reply)
            },
            _ => Ok(()),
        }
    }

    /// Reports whether the navigation has ended, at the given time. One that has
    /// ended in time is never taken for one that has not.
    pub fn polled(&mut self, completed: bool, now_ms: u64) -> (r: WaitAdvice)
        requires
            old(self).phase() is Waiting,
        ensures
            final(self).html_text() == old(self).html_text(),
            final(self).timeout_ms() == old(self).timeout_ms(),
            ({
                let over = now_ms >= old(self).phase()->deadline_ms;
                &&& r is Proceed <==> completed || over
                &&& final(self).phase() == (if completed || over {
                    NavigationPhase::Unlistening { completed }
                } else {
                    old(self).phase()
                })
            }),
    {
        match self.phase {
            NavigationPhase::Waiting { deadline_ms } => {
                if completed || now_ms >= deadline_ms {
                    self.phase = NavigationPhase::Unlistening { completed };
                    WaitAdvice::Proceed
                } else {
                    WaitAdvice::DispatchMessages
                }
            },
            _ => WaitAdvice::Proceed,
        }
    }

    /// Reports whether the navigation has ended after one message has been
    /// dispatched. The time is not looked at between two messages.
    pub fn message_dispatched(&mut self, completed: bool) -> (r: WaitAdvice)
        requires
            old(self).phase() is Waiting,
        ensures
            final(self).html_text() == old(self).html_text(),
            final(self).timeout_ms() == old(self).timeout_ms(),
            r is Proceed <==> completed,
            final(self).phase() == (if completed {
                NavigationPhase::Unlistening { completed: true }
            } else {
                old(self).phase()
            }),
    {
        if completed {
            self.phase = NavigationPhase::Unlistening { completed: true };
            WaitAdvice::Proceed
        } else {
            WaitAdvice::DispatchMessages
        }
    }
}

impl WebView2CompositionProducer {
    /// Begins a navigation to inline HTML that may take so long.
    pub fn navigate_to_string(&self, html: &str, timeout_ms: u64) -> (r: Navigation)
        ensures
            r.html_text() == html@,
            r.timeout_ms() == timeout_ms,
            r.phase() is Listening,
    {
        Navigation { html: html.to_owned(), timeout_ms, phase: NavigationPhase::Listening }
    }

    /// Begins a navigation to inline HTML that may take as long as the producer was
    /// configured with.
    pub fn navigate_within_configured_time(&self, html: &str) -> (r: Navigation)
        ensures
            r.html_text() == html@,
            r.timeout_ms() == self@.navigation_timeout_ms,
            r.phase() is Listening,
    {
        self.navigate_to_string(html, self.navigation_timeout_ms())
    }
}

/// A time during which messages are dispatched without waiting for anything.
#[derive(Clone, Copy, Debug, PartialEq, Eq, Structural)]
pub struct MessagePump {
    pub deadline_ms: u64,
}

impl MessagePump {
    /// Messages are dispatched for so long from now on.
    pub fn pump_messages_for(duration_ms: u64, now_ms: u64) -> (r: MessagePump)
        requires
            now_ms + duration_ms <= u64::MAX,
        ensures
            r.deadline_ms == now_ms + duration_ms,
    {
        MessagePump { deadline_ms: now_ms + duration_ms }
    }

    /// Whether to dispatch the messages that are there and sleep for
    /// [`MESSAGE_INTERVAL_MS`] once more.
    pub fn goes_on(&self, now_ms: u64) -> (r: bool)
        ensures
            r == (now_ms < self.deadline_ms),
    {
        now_ms < self.deadline_ms
    }
}

/// A navigation listens before it asks for the page, stops listening before it ends,
/// and runs the script of the render tick last; while it waits no call is due.
pub proof fn phase_decides_the_step(navigation: &Navigation, step: NavigationStep)
    requires
        call_ensures(Navigation::step, (navigation,), step),
    ensures
        navigation.phase() is Listening <==> step == NavigationStep::Call(
            PlatformCall::AddNavigationHandler,
        ),
        navigation.phase() is Requesting <==> step == NavigationStep::Call(
            PlatformCall::NavigateToString,
        ),
        navigation.phase() is Waiting <==> step is Poll,
        navigation.phase() is Unlistening <==> step == NavigationStep::Call(
            PlatformCall::RemoveNavigationHandler,
        ),
        navigation.phase() is Ticking <==> step == NavigationStep::Call(
            PlatformCall::ExecuteScript,
        ),
        navigation.phase() is Ended <==> step is Finish,
{
}

/// A page is given its time from when it was asked for, and a page that has loaded is
/// never reported as late, however late it is looked at. The handler comes off either
/// way, and its failure does not matter.
pub proof fn page_is_given_its_time(
    requesting: &mut Navigation,
    requested: &CallReply,
    start_ms: u64,
    waiting: &mut Navigation,
    completed: bool,
    now_ms: u64,
    advice: WaitAdvice,
    unlistening: &mut Navigation,
    removed: &CallReply,
    later_ms: u64,
    r: Result<(), WryWebSurfaceError>,
)
    requires
        requesting.phase() is Requesting,
        requested is Done,
        start_ms + requesting.timeout_ms() <= u64::MAX,
        call_ensures(
            Navigation::report,
            (requesting, requested, start_ms),
            Ok::<(), WryWebSurfaceError>(()),
        ),
        *waiting == *final(requesting),
        call_ensures(Navigation::polled, (waiting, completed, now_ms), advice),
        unlistening.phase() == final(waiting).phase(),
        unlistening.phase() is Unlistening,
        removed is Done || removed is Failed,
        call_ensures(Navigation::report, (unlistening, removed, later_ms), r),
    ensures
        final(requesting).phase() == (NavigationPhase::Waiting {
            deadline_ms: (start_ms + old(requesting).timeout_ms()) as u64,
        }),
        completed || now_ms >= start_ms + old(requesting).timeout_ms(),
        advice is Proceed,
        completed <==> r is Ok,
        completed ==> final(unlistening).phase() is Ticking,
        !completed ==> final(unlistening).phase() is Ended,
        !completed ==> r matches Err(WryWebSurfaceError::Platform(_)),
{
}

/// Before its time is over a page that has not loaded is waited for, and nothing
/// changes.
pub proof fn page_is_waited_for(
    waiting: &mut Navigation,
    deadline_ms: u64,
    now_ms: u64,
    advice: WaitAdvice,
    dispatching: &mut Navigation,
    dispatched: WaitAdvice,
)
    requires
        waiting.phase() == (NavigationPhase::Waiting { deadline_ms }),
        now_ms < deadline_ms,
        call_ensures(Navigation::polled, (waiting, false, now_ms), advice),
        dispatching.phase() is Waiting,
        call_ensures(Navigation::message_dispatched, (dispatching, false), dispatched),
    ensures
        advice is DispatchMessages,
        final(waiting).phase() == old(waiting).phase(),
        dispatched is DispatchMessages,
        final(dispatching).phase() == old(dispatching).phase(),
{
}

/// A navigation goes to the document that it was given, and takes as long as it was
/// given, or as the producer was configured with.
pub proof fn navigation_goes_where_it_was_told(
    producer: &WebView2CompositionProducer,
    html: &str,
    timeout_ms: u64,
    given: Navigation,
    configured: Navigation,
)
    requires
        call_ensures(
            WebView2CompositionProducer::navigate_to_string,
            (producer, html, timeout_ms),
            given,
        ),
        call_ensures(
            WebView2CompositionProducer::navigate_within_configured_time,
            (producer, html),
            configured,
        ),
    ensures
        given.html_text() == html@,
        configured.html_text() == html@,
        given.timeout_ms() == timeout_ms,
        configured.timeout_ms() == producer@.navigation_timeout_ms,
        given.phase() is Listening,
        configured.phase() is Listening,
{
}

/// Messages are dispatched for just the given time.
pub proof fn messages_are_pumped_for_their_time(
    duration_ms: u64,
    start_ms: u64,
    pump: &MessagePump,
    now_ms: u64,
    more: bool,
)
    requires
        start_ms + duration_ms <= u64::MAX,
        call_ensures(MessagePump::pump_messages_for, (duration_ms, start_ms), *pump),
        call_ensures(MessagePump::goes_on, (pump, now_ms), more),
    ensures
        more <==> now_ms - start_ms < duration_ms,
{
}

} // verus!
