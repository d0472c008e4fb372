use movie_night_api::app::Config;
use movie_night_api::polling::{
    ExampleForm, Poll, PollCollection, PollError, PollOption, PollSubmission,
};

fn tallies(poll: &Poll) -> Vec<(String, usize)> {
    poll.options()
        .iter()
        .map(|o| (o.name().clone(), o.votes()))
        .collect()
}

fn pair(name: &str, votes: usize) -> (String, usize) {
    (name.to_string(), votes)
}

fn checkbox(uuid: &str, names: &[&str]) -> PollSubmission {
    PollSubmission::Checkbox {
        uuid: uuid.to_string(),
        choices: names.iter().map(|n| n.to_string()).collect(),
    }
}

fn radio(uuid: &str, name: &str) -> PollSubmission {
    PollSubmission::Radio {
        uuid: uuid.to_string(),
        choices: name.to_string(),
    }
}

fn all_counts(c: &PollCollection) -> Vec<Vec<(String, usize)>> {
    c.polls().iter().map(tallies).collect()
}

#[test]
fn option_starts_at_zero_and_counts_up() {
    let mut o = PollOption::new("A");
    assert_eq!(o.name(), "A");
    assert_eq!(o.votes(), 0);
    o.inc_vote();
    o.inc_vote();
    assert_eq!(o.votes(), 2);
}

#[test]
fn dates_poll_tallies_checkbox_votes() {
    let mut poll = Poll::multiple_choice("Dates");
    for n in ["A", "B", "C"] {
        poll.add_option(n);
    }
    let id = poll.uuid();
    for names in [&["A"][..], &["A"][..], &["B"][..]] {
        assert!(poll.process_submission(&checkbox(&id, names)).is_ok());
    }
    assert_eq!(tallies(&poll), vec![pair("A", 2), pair("B", 1), pair("C", 0)]);
}

#[test]
fn movies_poll_rejects_checkbox() {
    let mut poll = Poll::new("Movies");
    poll.add_option("X");
    poll.add_option("Y");
    let id = poll.uuid();
    let r = poll.process_submission(&checkbox(&id, &["X"]));
    assert!(matches!(r, Err(PollError::InvalidSubmission)));
    assert_eq!(tallies(&poll), vec![pair("X", 0), pair("Y", 0)]);
}

#[test]
fn dates_poll_rejects_radio() {
    let mut poll = Poll::multiple_choice("Dates");
    poll.add_option("A");
    let id = poll.uuid();
    let r = poll.process_submission(&radio(&id, "A"));
    assert_eq!(r.err(), Some(PollError::InvalidSubmission));
    assert_eq!(tallies(&poll), vec![pair("A", 0)]);
}

#[test]
fn radio_counts_the_one_named_option() {
    let mut poll = Poll::new("Movies");
    poll.add_option("X");
    poll.add_option("Y");
    let id = poll.uuid();
    assert!(poll.process_submission(&radio(&id, "Y")).is_ok());
    assert_eq!(tallies(&poll), vec![pair("X", 0), pair("Y", 1)]);
}

#[test]
fn checkbox_counts_every_named_option() {
    let mut poll = Poll::multiple_choice("Dates");
    for n in ["A", "B", "C"] {
        poll.add_option(n);
    }
    let id = poll.uuid();
    assert!(poll.process_submission(&checkbox(&id, &["C", "A", "Z"])).is_ok());
    assert_eq!(tallies(&poll), vec![pair("A", 1), pair("B", 0), pair("C", 1)]);
}

#[test]
fn unknown_choice_changes_nothing_and_is_no_error() {
    let mut single = Poll::new("Movies");
    single.add_option("X");
    let id = single.uuid();
    assert!(single.process_submission(&radio(&id, "Q")).is_ok());
    assert_eq!(tallies(&single), vec![pair("X", 0)]);

    let mut multi = Poll::multiple_choice("Dates");
    multi.add_option("A");
    let id = multi.uuid();
    assert!(multi.process_submission(&checkbox(&id, &["Q", "R"])).is_ok());
    assert!(multi.process_submission(&checkbox(&id, &[])).is_ok());
    assert_eq!(tallies(&multi), vec![pair("A", 0)]);
}

#[test]
fn unknown_poll_id_changes_nothing() {
    let config = Config::new(vec!["A".to_string()], Some(vec!["X".to_string()]));
    let mut polls = config.make_polls();
    let before = all_counts(&polls);
    polls.send_submission(checkbox("no-such-poll", &["A"]));
    polls.send_submission(radio("no-such-poll", "X"));
    assert_eq!(all_counts(&polls), before);
}

#[test]
fn make_polls_builds_dates_and_movies() {
    let config = Config::new(
        vec!["A".to_string(), "B".to_string()],
        Some(vec!["X".to_string(), "Y".to_string(), "Z".to_string()]),
    );
    let polls = config.make_polls();
    let list = polls.polls();
    assert_eq!(list.len(), 2);
    assert_eq!(list[0].title(), "Dates");
    assert!(list[0].is_multiple());
    assert_eq!(tallies(&list[0]), vec![pair("A", 0), pair("B", 0)]);
    assert_eq!(list[1].title(), "Movies");
    assert!(!list[1].is_multiple());
    assert_eq!(
        tallies(&list[1]),
        vec![pair("X", 0), pair("Y", 0), pair("Z", 0)]
    );
}

#[test]
fn make_polls_without_movies_leaves_movies_empty() {
    let polls = Config::new(vec![], None).make_polls();
    let list = polls.polls();
    assert_eq!(list.len(), 2);
    assert!(list[0].options().is_empty());
    assert!(list[1].options().is_empty());
}

#[test]
fn config_keeps_its_lists() {
    let config = Config::new(vec!["A".to_string()], None);
    assert_eq!(config.dates(), &vec!["A".to_string()]);
    assert!(config.movies().is_none());
}

#[test]
fn send_submission_routes_by_id() {
    let config = Config::new(
        vec!["A".to_string(), "B".to_string(), "C".to_string()],
        Some(vec!["X".to_string(), "Y".to_string()]),
    );
    let mut polls = config.make_polls();
    let dates = polls.polls()[0].uuid();
    let movies = polls.polls()[1].uuid();
    polls.send_submission(checkbox(&dates, &["A"]));
    polls.send_submission(checkbox(&dates, &["A"]));
    polls.send_submission(checkbox(&dates, &["B"]));
    polls.send_submission(radio(&movies, "Y"));
    // wrong kinds are turned down by the poll and change nothing
    polls.send_submission(radio(&dates, "C"));
    polls.send_submission(checkbox(&movies, &["X"]));
    assert_eq!(
        all_counts(&polls),
        vec![
            vec![pair("A", 2), pair("B", 1), pair("C", 0)],
            vec![pair("X", 0), pair("Y", 1)],
        ]
    );
}

#[test]
fn counts_never_fall_over_a_run() {
    let config = Config::new(
        vec!["A".to_string(), "B".to_string()],
        Some(vec!["X".to_string()]),
    );
    let mut polls = config.make_polls();
    let dates = polls.polls()[0].uuid();
    let movies = polls.polls()[1].uuid();
    let run = vec![
        checkbox(&dates, &["A", "B"]),
        radio(&movies, "X"),
        radio(&dates, "A"),
        checkbox(&movies, &["X"]),
        checkbox("elsewhere", &["A"]),
        checkbox(&dates, &["B"]),
    ];
    let mut before = all_counts(&polls);
    for s in run {
        polls.send_submission(s);
        let now = all_counts(&polls);
        for (p, q) in before.iter().zip(now.iter()) {
            for (o, n) in p.iter().zip(q.iter()) {
                assert_eq!(o.0, n.0);
                assert!(n.1 >= o.1);
            }
        }
        before = now;
    }
    assert_eq!(
        before,
        vec![vec![pair("A", 1), pair("B", 2)], vec![pair("X", 1)]]
    );
}

#[test]
fn get_mut_finds_by_title() {
    let config = Config::new(vec!["A".to_string()], Some(vec!["X".to_string()]));
    let mut polls = config.make_polls();
    assert!(polls.get_mut("Nothing").is_none());
    let movies = polls.get_mut("Movies").expect("Movies is there");
    assert_eq!(movies.title(), "Movies");
    let id = movies.uuid();
    movies.add_option("Y");
    assert!(movies.process_submission(&radio(&id, "Y")).is_ok());
    let list = polls.polls();
    assert_eq!(tallies(&list[1]), vec![pair("X", 0), pair("Y", 1)]);
    assert_eq!(tallies(&list[0]), vec![pair("A", 0)]);
}

#[test]
fn rebuilding_from_parts_keeps_every_field() {
    let config = Config::new(
        vec!["A".to_string(), "B".to_string()],
        Some(vec!["X".to_string()]),
    );
    let mut polls = config.make_polls();
    let dates = polls.polls()[0].uuid();
    polls.send_submission(checkbox(&dates, &["B"]));
    let parts: Vec<Poll> = polls
        .polls()
        .iter()
        .map(|p| {
            let options = p
                .options()
                .iter()
                .map(|o| PollOption::with_votes(o.name().clone(), o.votes()))
                .collect();
            Poll::from_parts(p.uuid(), p.title().clone(), p.is_multiple(), options)
        })
        .collect();
    let rebuilt = PollCollection::from_polls(parts);
    assert_eq!(rebuilt.polls().len(), polls.polls().len());
    for (a, b) in rebuilt.polls().iter().zip(polls.polls().iter()) {
        assert_eq!(a.uuid(), b.uuid());
        assert_eq!(a.title(), b.title());
        assert_eq!(a.is_multiple(), b.is_multiple());
        assert_eq!(tallies(a), tallies(b));
    }
    assert_eq!(tallies(&rebuilt.polls()[0]), vec![pair("A", 0), pair("B", 1)]);
}

#[test]
fn fresh_ids_are_hyphenated_and_distinct() {
    let a = Poll::multiple_choice("Dates").uuid();
    let b = Poll::new("Movies").uuid();
    for id in [&a, &b] {
        assert_eq!(id.len(), 36);
        for k in [8, 13, 18, 23] {
            assert_eq!(id.as_bytes()[k], b'-');
        }
    }
    assert_ne!(a, b);
}

#[test]
fn room_for_a_vote_is_checked() {
    let full = PollOption::with_votes("A".to_string(), usize::MAX);
    let poll = Poll::from_parts(
        "p".to_string(),
        "Dates".to_string(),
        true,
        vec![full, PollOption::new("B")],
    );
    let polls = PollCollection::from_polls(vec![poll]);
    assert!(!polls.has_room_for(&checkbox("p", &["A"])));
    assert!(polls.has_room_for(&checkbox("p", &["B"])));
    assert!(polls.has_room_for(&checkbox("q", &["A"])));
    assert!(polls.has_room_for(&radio("p", "A")));
}

#[test]
fn submission_and_form_accessors() {
    let s = radio("id-1", "X");
    assert_eq!(s.uuid(), "id-1");
    let t = checkbox("id-2", &["A"]);
    assert_eq!(t.uuid(), "id-2");
    let form = ExampleForm::new(vec![s, t]);
    let back = form.into_vec();
    assert_eq!(back.len(), 2);
    assert_eq!(back[0].uuid(), "id-1");
    assert_eq!(back[1].uuid(), "id-2");
}

#[test]
fn default_collection_is_empty() {
    let mut polls = PollCollection::default();
    assert!(polls.polls().is_empty());
    polls.push_poll(Poll::new("Movies"));
    assert_eq!(polls.polls().len(), 1);
}
