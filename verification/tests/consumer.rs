use entropy::poacher::consumer::{next_step, ConsumerStep};
use entropy::poacher::local::{LocalGroup, LocalResult};
use entropy::poacher::meetup::{MeetupGroup, MeetupResult};
use entropy::poacher::{PoacherError, PoacherMessage, PoacherResult, PoacherWarning};

fn meetup_group() -> MeetupGroup {
    MeetupGroup {
        id: "1".to_string(),
        slug: "g".to_string(),
        name: "G".to_string(),
        link: "l".to_string(),
        description: "d".to_string(),
        city: "c".to_string(),
        state: "s".to_string(),
        country: "in".to_string(),
        is_private: true,
        photo: Some("p".to_string()),
    }
}

#[test]
fn end_stops_the_consumer() {
    assert!(matches!(next_step(PoacherMessage::End), ConsumerStep::Stop));
}

#[test]
fn errors_and_warnings_are_reported() {
    match next_step(PoacherMessage::Error(PoacherError::UnknownResponseError("bad".to_string()))) {
        ConsumerStep::ReportError(PoacherError::UnknownResponseError(m)) => assert_eq!(m, "bad"),
        _ => panic!("expected an error report"),
    }
    match next_step(PoacherMessage::Warning(PoacherWarning::FailedPresumption("more".to_string()))) {
        ConsumerStep::ReportWarning(PoacherWarning::FailedPresumption(m)) => assert_eq!(m, "more"),
        _ => panic!("expected a warning report"),
    }
}

#[test]
fn meetup_results_are_consumed() {
    let msg = PoacherMessage::ResultItem(PoacherResult::Meetup(MeetupResult::Group(meetup_group())));
    match next_step(msg) {
        ConsumerStep::Consume(MeetupResult::Group(g)) => assert_eq!(g.slug, "g"),
        _ => panic!("expected the group to be consumed"),
    }
}

#[test]
fn local_results_are_not_implemented() {
    let msg = PoacherMessage::ResultItem(PoacherResult::Local(LocalResult::Group(LocalGroup {
        name: "n".to_string(),
        slug: "s".to_string(),
        description: "d".to_string(),
    })));
    assert!(matches!(next_step(msg), ConsumerStep::Unsupported));
}
