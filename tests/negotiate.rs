use limbo::error::PipelineError;
use limbo::format::DeviceFormat;
use limbo::negotiate::{NegotiationStep, Negotiator};

fn fmt(code: &[u8; 4]) -> DeviceFormat {
    DeviceFormat { width: 640, height: 480, fourcc: u32::from_le_bytes(*code) }
}

/// Runs a negotiation against a device that takes only the formats in
/// `accepted` and otherwise answers with its own default.
fn negotiate(
    candidates: Vec<DeviceFormat>,
    accepted: &[DeviceFormat],
) -> (Result<DeviceFormat, PipelineError>, Vec<DeviceFormat>) {
    let default = fmt(b"YUYV");
    let mut n = Negotiator::new(candidates);
    let mut asked = Vec::new();
    let mut step = n.step();
    loop {
        if let Some(outcome) = step.outcome() {
            return (outcome, asked);
        }
        let NegotiationStep::Request(f) = step else { unreachable!() };
        asked.push(f);
        let answer = if accepted.contains(&f) { f } else { default };
        step = n.on_reply(answer);
    }
}

#[test]
fn negotiation_takes_second_and_never_asks_third() {
    let (a, b, c) = (fmt(b"AB24"), fmt(b"MJPG"), fmt(b"RGB3"));
    let (outcome, asked) = negotiate(vec![a, b, c], &[b, c]);
    assert_eq!(outcome, Ok(b));
    assert_eq!(asked, vec![a, b]);
}

#[test]
fn negotiation_twice_gives_the_same_choice() {
    let (a, b, c) = (fmt(b"AB24"), fmt(b"MJPG"), fmt(b"RGB3"));
    let first = negotiate(vec![a, b, c], &[c]);
    let second = negotiate(vec![a, b, c], &[c]);
    assert_eq!(first, second);
    assert_eq!(first.0, Ok(c));
}

#[test]
fn negotiation_exhausted_is_unsupported() {
    let (a, b) = (fmt(b"AB24"), fmt(b"MJPG"));
    let (outcome, asked) = negotiate(vec![a, b], &[]);
    assert_eq!(outcome, Err(PipelineError::UnsupportedFormat));
    assert_eq!(asked, vec![a, b]);
}

#[test]
fn negotiation_with_no_candidates_is_exhausted() {
    let n = Negotiator::new(Vec::new());
    assert_eq!(n.step(), NegotiationStep::Exhausted);
}

#[test]
fn negotiation_refuses_changed_dimensions() {
    let a = fmt(b"MJPG");
    let mut n = Negotiator::new(vec![a]);
    let smaller = DeviceFormat { width: 320, height: 240, fourcc: a.fourcc };
    assert_eq!(n.on_reply(smaller), NegotiationStep::Exhausted);
}

#[test]
fn reply_after_choice_changes_nothing() {
    let (a, b) = (fmt(b"AB24"), fmt(b"MJPG"));
    let mut n = Negotiator::new(vec![a, b]);
    assert_eq!(n.on_reply(a), NegotiationStep::Chosen(a));
    assert_eq!(n.on_reply(b), NegotiationStep::Chosen(a));
}
