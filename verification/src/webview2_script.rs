//! The scripts that the WebView2 producer runs in a page, and how it words a
//! timeout.

use vstd::prelude::*;
use vstd::string::*;

use crate::geometry::PhysicalSize;
use crate::text::{join2, push_extent};
use crate::web_surface::WryWebSurfaceError;

verus! {

/// Resolves once the page has rendered: two animation frames later.
pub const RENDER_TICK_SCRIPT: &'static str = r#"(() => new Promise(resolve => {
            requestAnimationFrame(() => requestAnimationFrame(() => resolve("present")));
        }))()"#;

/// The label of the nudge that precedes the first frame of a capture.
pub const FIRST_FRAME_NUDGE_LABEL: &'static str = "WebView2CompositionProducer.first-frame";

/// What stands before the label in a nudge.
pub const NUDGE_HEAD: &'static str = r#"(() => new Promise(resolve => {
                document.body.dataset.captureNudge = ""#;

/// What stands after the label in a nudge.
pub const NUDGE_TAIL: &'static str = r#"";
                document.body.style.boxShadow = `inset 0 0 0 4px rgb(${Math.floor(Math.random() * 255)}, 190, 112)`;
                requestAnimationFrame(() => requestAnimationFrame(() => resolve("nudged")));
            }))()"#;

/// Whether `c` may stand in a label: an ASCII letter or digit, or one of `-_.:`.
pub open spec fn is_label_char(c: char) -> bool {
    ||| 'a' <= c <= 'z'
    ||| 'A' <= c <= 'Z'
    ||| '0' <= c <= '9'
    ||| c == '-' || c == '_' || c == '.' || c == ':'
}

/// `label` without the characters that may not stand in a label.
pub open spec fn safe_label(label: Seq<char>) -> Seq<char> {
    label.filter(|c: char| is_label_char(c))
}

/// The script that makes a page repaint, marked with `label`.
pub open spec fn nudge_text(label: Seq<char>) -> Seq<char> {
    NUDGE_HEAD@ + safe_label(label) + NUDGE_TAIL@
}

fn may_stand_in_label(c: char) -> (r: bool)
    ensures
        r == is_label_char(c),
{
    ('a' <= c && c <= 'z') || ('A' <= c && c <= 'Z') || ('0' <= c && c <= '9') || c == '-' || c
        == '_' || c == '.' || c == ':'
}

/// `label` without the characters that may not stand in a label.
pub fn sanitize_label(label: &str) -> (r: String)
    ensures
        r@ == safe_label(label@),
{
    let ghost keep = |c: char| is_label_char(c);
    let mut out = "".to_owned();
    proof {
        reveal_strlit("");
        reveal(Seq::filter);
        assert(out@ =~= label@.take(0).filter(keep));
    }
    let total: usize = label.unicode_len();
    let mut i: usize = 0;
    while i < total
        invariant
            total == label@.len(),
            i <= total,
            keep == (|c: char| is_label_char(c)),
            out@ == label@.take(i as int).filter(keep),
        decreases total - i,
    {
        proof {
            reveal(Seq::filter);
            assert(label@.take(i + 1).drop_last() =~= label@.take(i as int));
        }
        if may_stand_in_label(label.get_char(i)) {
            out.append(label.substring_char(i, i + 1));
            assert(out@ =~= label@.take(i as int).filter(keep).push(label@[i as int]));
        }
        i = i + 1;
    }
    assert(label@.take(total as int) =~= label@);
    out
}

/// The script that makes a page repaint, marked with `label`.
pub fn nudge_script(label: &str) -> (r: String)
    ensures
        r@ == nudge_text(label@),
{
    let safe = sanitize_label(label);
    let mut out = join2(NUDGE_HEAD, safe.as_str());
    out.append(NUDGE_TAIL);
    out
}

/// A sanitized label holds nothing but characters that may stand in a label, so
/// it cannot end the string literal that it stands in. A label that is made of
/// such characters is kept as it is, and sanitizing twice is sanitizing once.
pub proof fn safe_label_is_safe(label: Seq<char>)
    ensures
        forall|i: int|
            0 <= i < safe_label(label).len() ==> is_label_char(#[trigger] safe_label(label)[i]),
        !safe_label(label).contains('"'),
        safe_label(safe_label(label)) == safe_label(label),
        (forall|i: int| 0 <= i < label.len() ==> is_label_char(#[trigger] label[i])) ==> safe_label(
            label,
        ) == label,
{
    let keep = |c: char| is_label_char(c);
    let safe = safe_label(label);
    assert forall|i: int| 0 <= i < safe.len() implies is_label_char(#[trigger] safe[i]) by {
        label.lemma_filter_pred(keep, i);
    }
    safe_label_keeps_safe_text(safe);
    if forall|i: int| 0 <= i < label.len() ==> is_label_char(#[trigger] label[i]) {
        safe_label_keeps_safe_text(label);
    }
}

proof fn safe_label_keeps_safe_text(label: Seq<char>)
    requires
        forall|i: int| 0 <= i < label.len() ==> is_label_char(#[trigger] label[i]),
    ensures
        safe_label(label) == label,
    decreases label.len(),
{
    reveal(Seq::filter);
    if label.len() > 0 {
        safe_label_keeps_safe_text(label.drop_last());
        assert(label.drop_last().push(label.last()) =~= label);
    } else {
        assert(safe_label(label) =~= label);
    }
}

/// How [`std::time::Duration`] writes a time of so many milliseconds in debug
/// notation.
pub uninterp spec fn duration_text(millis: u64) -> Seq<char>;

/// The `Debug` text of [`std::time::Duration`], such as `5s` or `1.5s`: the
/// contract says only that it is the same for the same time.
#[verifier::external_body]
fn format_duration(millis: u64) -> (r: String)
    ensures
        r@ == duration_text(millis),
{
    format!("{:?}", std::time::Duration::from_millis(millis))
}

/// The error of a navigation that did not end within the given time.
pub fn navigation_timeout_within(timeout: &str) -> (r: WryWebSurfaceError)
    ensures
        r.is_platform("WebView2 navigation did not complete within "@ + timeout@),
{
    WryWebSurfaceError::Platform(join2("WebView2 navigation did not complete within ", timeout))
}

/// The error of a navigation that did not end in so many milliseconds.
pub fn navigation_timeout(timeout_ms: u64) -> (r: WryWebSurfaceError)
    ensures
        r.is_platform(
            "WebView2 navigation did not complete within "@ + duration_text(timeout_ms),
        ),
{
    navigation_timeout_within(format_duration(timeout_ms).as_str())
}

/// What is reported where no frame of a surface arrived within the given time.
pub open spec fn frame_timeout_text(
    timeout: Seq<char>,
    size: PhysicalSize,
    cause: Seq<char>,
) -> Seq<char> {
    "TryGetNextFrame timed out after "@ + timeout + " for "@ + crate::text::extent_text(
        size.width as int,
        size.height as int,
    ) + ": "@ + cause
}

/// The error of a frame that did not arrive within the given time.
pub fn frame_timeout_within(timeout: &str, size: PhysicalSize, cause: &str) -> (r:
    WryWebSurfaceError)
    ensures
        r.is_platform(frame_timeout_text(timeout@, size, cause@)),
{
    let mut out = join2("TryGetNextFrame timed out after ", timeout);
    out.append(" for ");
    push_extent(&mut out, size.width, size.height);
    out.append(": ");
    out.append(cause);
    WryWebSurfaceError::Platform(out)
}

/// The error of a frame that did not arrive in so many milliseconds.
pub fn frame_timeout(timeout_ms: u64, size: PhysicalSize, cause: &str) -> (r: WryWebSurfaceError)
    ensures
        r.is_platform(frame_timeout_text(duration_text(timeout_ms), size, cause@)),
{
    frame_timeout_within(format_duration(timeout_ms).as_str(), size, cause)
}

/// Labels are made of ASCII letters and digits and of `-`, `_`, `.` and `:`, and of
/// nothing else.
pub proof fn label_chars(c: char)
    ensures
        is_label_char(c) <==> {
            ||| 97 <= c as int <= 122
            ||| 65 <= c as int <= 90
            ||| 48 <= c as int <= 57
            ||| c as int == 45
            ||| c as int == 95
            ||| c as int == 46
            ||| c as int == 58
        },
{
}

/// Sanitizing goes character by character and keeps the order: a text is sanitized by
/// sanitizing its parts, and a single character is kept exactly if it may stand in a
/// label.
pub proof fn labels_are_sanitized_by_parts(first: Seq<char>, second: Seq<char>, c: char)
    ensures
        safe_label(first + second) == safe_label(first) + safe_label(second),
        safe_label(Seq::<char>::empty()) == Seq::<char>::empty(),
        safe_label(seq![c]) == (if is_label_char(c) {
            seq![c]
        } else {
            Seq::empty()
        }),
    decreases second.len(),
{
    reveal(Seq::filter);
    assert(safe_label(Seq::<char>::empty()) =~= Seq::<char>::empty());
    assert(seq![c].drop_last() =~= Seq::<char>::empty());
    assert(safe_label(seq![c]) =~= (if is_label_char(c) {
        seq![c]
    } else {
        Seq::empty()
    }));
    if second.len() == 0 {
        assert(first + second =~= first);
        assert(second =~= Seq::<char>::empty());
        assert(safe_label(first) + safe_label(second) =~= safe_label(first));
    } else {
        labels_are_sanitized_by_parts(first, second.drop_last(), c);
        assert((first + second).drop_last() =~= first + second.drop_last());
        assert(safe_label(first + second) =~= safe_label(first) + safe_label(second));
    }
}

/// A nudge is the same script for every label but for the label itself, which stands in
/// it sanitized: two nudges differ only where their sanitized labels do.
pub proof fn nudge_holds_its_label(label: &str, other: &str, script: String, second: String)
    requires
        call_ensures(nudge_script, (label,), script),
        call_ensures(nudge_script, (other,), second),
    ensures
        ({
            let safe = safe_label(label@);
            let head = script@.len() - safe.len() - NUDGE_TAIL@.len();
            &&& head == NUDGE_HEAD@.len()
            &&& script@.subrange(head, head + safe.len()) == safe
            &&& script@.take(head) == second@.take(head)
            &&& script@.skip(head + safe.len()) == NUDGE_TAIL@
        }),
        safe_label(label@) == safe_label(other@) ==> script@ == second@,
{
    let safe = safe_label(label@);
    let head = NUDGE_HEAD@.len() as int;
    assert(script@.subrange(head, head + safe.len()) =~= safe);
    assert(script@.take(head) =~= NUDGE_HEAD@);
    assert(second@.take(head) =~= NUDGE_HEAD@);
    assert(script@.skip(head + safe.len()) =~= NUDGE_TAIL@);
}

/// A frame that did not come in time is reported with its cause, in full, at the end.
pub proof fn late_frame_is_reported_with_its_cause(
    timeout: &str,
    size: PhysicalSize,
    cause: &str,
    error: WryWebSurfaceError,
)
    requires
        call_ensures(frame_timeout_within, (timeout, size, cause), error),
    ensures
        error matches WryWebSurfaceError::Platform(shown) && {
            &&& shown@.len() >= cause@.len()
            &&& shown@.skip(shown@.len() - cause@.len()) == cause@
        },
{
}

} // verus!
