//! Height of a notification surface, derived from the lengths of its text
//! and the presence of its optional visual elements.

use vstd::prelude::*;
use vstd::utf8::encode_utf8;
use crate::protocol::Notification;

verus! {

/// Characters per title line assumed by the estimate.
pub const TITLE_CHARS_PER_LINE: u128 = 52;

/// Characters per message line assumed by the estimate.
pub const MESSAGE_CHARS_PER_LINE: u128 = 62;

/// Height added per title line once the title spans more than one line.
pub const TITLE_LINE_HEIGHT: u128 = 64;

/// Fixed height of the message block.
pub const MESSAGE_BLOCK_HEIGHT: u128 = 24;

/// Height added per message line once the message spans more than one line.
pub const MESSAGE_LINE_HEIGHT: u128 = 20;

/// Height of the image block.
pub const IMAGE_HEIGHT: u128 = 280;

/// Height of the action row, whatever the number of actions.
pub const ACTIONS_HEIGHT: u128 = 72;

/// `n / d` rounded to the nearest integer, halves rounded up.
pub open spec fn round_div(n: nat, d: nat) -> nat
    recommends
        d > 0,
{
    ((2 * n + d) / (2 * d)) as nat
}

/// Estimated number of lines of a text of `len` bytes, `per_line` per line.
pub open spec fn line_estimate(len: nat, per_line: nat) -> nat {
    1 + round_div(len, per_line)
}

/// Height contributed by a title of `title_len` bytes.
pub open spec fn title_extra(title_len: nat) -> nat {
    let lines = line_estimate(title_len, 52);
    if lines > 1 {
        64 * lines
    } else {
        0
    }
}

/// Height contributed by an optional message of `len` bytes.
pub open spec fn message_extra(message_len: Option<nat>) -> nat {
    match message_len {
        None => 0,
        Some(len) => {
            let lines = line_estimate(len, 62);
            24 + if lines > 1 {
                20 * lines
            } else {
                0
            }
        },
    }
}

/// The height of a surface with the given content, above a base height.
pub open spec fn surface_height(
    base: nat,
    title_len: nat,
    message_len: Option<nat>,
    has_image: bool,
    has_actions: bool,
) -> nat {
    base + title_extra(title_len) + message_extra(message_len) + (if has_image {
        280nat
    } else {
        0nat
    }) + (if has_actions {
        72nat
    } else {
        0nat
    })
}

/// Whether an optional message of length `a` is no longer than `b`: absent
/// counts as shorter than any message.
pub open spec fn message_no_longer(a: Option<nat>, b: Option<nat>) -> bool {
    match (a, b) {
        (None, _) => true,
        (Some(x), Some(y)) => x <= y,
        (Some(_), None) => false,
    }
}

proof fn lemma_line_estimate_monotonic(a: nat, b: nat, per_line: nat)
    requires
        a <= b,
        per_line > 0,
    ensures
        line_estimate(a, per_line) <= line_estimate(b, per_line),
{
    assert((2 * a + per_line) / (2 * per_line) <= (2 * b + per_line) / (2 * per_line)) by (nonlinear_arith)
        requires
            a <= b,
            per_line > 0,
    {
        vstd::arithmetic::div_mod::lemma_div_is_ordered(
            (2 * a + per_line) as int,
            (2 * b + per_line) as int,
            (2 * per_line) as int,
        );
    }
}

/// The height never shrinks when the title grows, a message is added or
/// grows, or an image or a non-empty row of actions is added.
pub proof fn lemma_height_monotonic(
    base: nat,
    title_a: nat,
    title_b: nat,
    message_a: Option<nat>,
    message_b: Option<nat>,
    image_a: bool,
    image_b: bool,
    actions_a: bool,
    actions_b: bool,
)
    requires
        title_a <= title_b,
        message_no_longer(message_a, message_b),
        image_a ==> image_b,
        actions_a ==> actions_b,
    ensures
        surface_height(base, title_a, message_a, image_a, actions_a) <= surface_height(
            base,
            title_b,
            message_b,
            image_b,
            actions_b,
        ),
{
    lemma_line_estimate_monotonic(title_a, title_b, 52);
    assert(title_extra(title_a) <= title_extra(title_b)) by (nonlinear_arith)
        requires
            line_estimate(title_a, 52) <= line_estimate(title_b, 52),
            title_extra(title_a) == if line_estimate(title_a, 52) > 1 { 64 * line_estimate(title_a, 52) } else { 0 },
            title_extra(title_b) == if line_estimate(title_b, 52) > 1 { 64 * line_estimate(title_b, 52) } else { 0 },
    ;
    if let (Some(x), Some(y)) = (message_a, message_b) {
        lemma_line_estimate_monotonic(x, y, 62);
        assert(message_extra(message_a) <= message_extra(message_b)) by (nonlinear_arith)
            requires
                line_estimate(x, 62) <= line_estimate(y, 62),
                message_extra(message_a) == 24 + if line_estimate(x, 62) > 1 { 20 * line_estimate(x, 62) } else { 0 },
                message_extra(message_b) == 24 + if line_estimate(y, 62) > 1 { 20 * line_estimate(y, 62) } else { 0 },
        ;
    }
}

/// Optional length as a mathematical value.
pub open spec fn opt_len(len: Option<usize>) -> Option<nat> {
    match len {
        None => None,
        Some(l) => Some(l as nat),
    }
}

/// `1 + round(len / per_line)`.
fn estimate_lines(len: usize, per_line: u128) -> (r: u128)
    requires
        per_line == 52 || per_line == 62,
    ensures
        r == line_estimate(len as nat, per_line as nat),
        r <= 1 + len as u128,
{
    let n = len as u128;
    let q = (2 * n + per_line) / (2 * per_line);
    assert(q <= n + 1) by (nonlinear_arith)
        requires
            q == (2 * n + per_line) / (2 * per_line),
            per_line >= 52,
    ;
    1 + q
}

/// Height of a surface of `base` whose title has `title_len` bytes, whose
/// message, if any, has `message_len` bytes, with or without an image and a
/// non-empty row of actions.
pub fn height_for(
    base: u32,
    title_len: usize,
    message_len: Option<usize>,
    has_image: bool,
    has_actions: bool,
) -> (h: u128)
    ensures
        h == surface_height(base as nat, title_len as nat, opt_len(message_len), has_image, has_actions),
{
    let mut h: u128 = base as u128;
    let title_lines = estimate_lines(title_len, TITLE_CHARS_PER_LINE);
    if title_lines > 1 {
        h = h + TITLE_LINE_HEIGHT * title_lines;
    }
    if let Some(len) = message_len {
        h = h + MESSAGE_BLOCK_HEIGHT;
        let message_lines = estimate_lines(len, MESSAGE_CHARS_PER_LINE);
        if message_lines > 1 {
            h = h + MESSAGE_LINE_HEIGHT * message_lines;
        }
    }
    if has_image {
        h = h + IMAGE_HEIGHT;
    }
    if has_actions {
        h = h + ACTIONS_HEIGHT;
    }
    h
}

/// Length in bytes of a text, as `str::len` gives it.
pub open spec fn byte_len(s: Seq<char>) -> nat {
    (encode_utf8(s).len() as usize) as nat
}

/// Whether a notification shows a non-empty row of actions.
pub open spec fn shows_actions(n: Notification) -> bool {
    match n.actions {
        Some(a) => a@.len() > 0,
        None => false,
    }
}

/// Height of the surface of a notification, above a base height.
pub open spec fn notification_height(base: nat, n: Notification) -> nat {
    surface_height(
        base,
        byte_len(n.title@),
        match n.message {
            Some(m) => Some(byte_len(m@)),
            None => None,
        },
        n.image is Some,
        shows_actions(n),
    )
}

/// Two notifications with the same content have the same height: the
/// height depends on the title's and message's lengths and on which
/// optional elements are shown, and on nothing else.
pub proof fn lemma_height_deterministic(base: nat, a: Notification, b: Notification)
    requires
        a.title@ == b.title@,
        a.message is Some <==> b.message is Some,
        a.message matches Some(m) ==> m@ == b.message->Some_0@,
        a.image is Some <==> b.image is Some,
        shows_actions(a) == shows_actions(b),
    ensures
        notification_height(base, a) == notification_height(base, b),
{
}

/// Height of the surface that presents `n`, above `base`.
pub fn compute_height(n: &Notification, base: u32) -> (h: u128)
    ensures
        h == notification_height(base as nat, *n),
{
    let message_len = match &n.message {
        Some(m) => Some(m.as_str().len()),
        None => None,
    };
    let has_actions = match &n.actions {
        Some(a) => a.len() > 0,
        None => false,
    };
    height_for(base, n.title.as_str().len(), message_len, n.image.is_some(), has_actions)
}

} // verus!
