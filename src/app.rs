//! The startup configuration and the polls it sets up.
use crate::polling::{fresh_options, is_hyphenated_id, names_of, Poll, PollCollection, PollView};
use vstd::prelude::*;

verus! {

/// The dates to vote on, and the movies if any.
pub struct Config {
    dates: Vec<String>,
    movies: Option<Vec<String>>,
}

impl Config {
    pub fn new(dates: Vec<String>, movies: Option<Vec<String>>) -> (r: Self)
        ensures
            r.date_names() == names_of(dates@),
            r.movie_names() == (match movies {
                Some(m) => names_of(m@),
                None => Seq::empty(),
            }),
    {
        Config { dates, movies }
    }

    pub fn dates(&self) -> (r: &Vec<String>)
        ensures
            names_of(r@) == self.date_names(),
    {
        &self.dates
    }

    pub fn movies(&self) -> (r: &Option<Vec<String>>)
        ensures
            self.movie_names() == (match r {
                Some(m) => names_of(m@),
                None => Seq::empty(),
            }),
    {
        &self.movies
    }

    /// The names of the dates, in order.
    pub closed spec fn date_names(&self) -> Seq<Seq<char>> {
        names_of(self.dates@)
    }

    /// The names of the movies, in order; none where the list is absent.
    pub closed spec fn movie_names(&self) -> Seq<Seq<char>> {
        match self.movies {
            Some(m) => names_of(m@),
            None => Seq::empty(),
        }
    }

    /// The polls of the configuration: a multiple-choice poll "Dates" with
    /// an option for each date, then a single-choice poll "Movies" with an
    /// option for each movie; all counts at zero.
    pub fn make_polls(self) -> (r: PollCollection)
        ensures
            r@.len() == 2,
            r@[0].title == "Dates"@,
            r@[0].multiple,
            r@[0].options == fresh_options(self.date_names()),
            r@[1].title == "Movies"@,
            !r@[1].multiple,
            r@[1].options == fresh_options(self.movie_names()),
            is_hyphenated_id(r@[0].uuid),
            is_hyphenated_id(r@[1].uuid),
    {
        let mut collection = PollCollection::default();
        let mut dates_poll = Poll::multiple_choice("Dates");
        let mut movies_poll = Poll::new("Movies");
        add_options(&mut dates_poll, &self.dates);
        if let Some(movies) = &self.movies {
            add_options(&mut movies_poll, movies);
        }
        collection.push_poll(dates_poll);
        collection.push_poll(movies_poll);
        collection
    }
}

/// Appends an option with no votes for each name, in order.
fn add_options(poll: &mut Poll, names: &Vec<String>)
    requires
        old(poll)@.options.len() == 0,
    ensures
        final(poll)@ == (PollView { options: fresh_options(names_of(names@)), ..old(poll)@ }),
{
    assert(fresh_options(names_of(names@.subrange(0, 0))) =~= poll@.options);
    let mut i: usize = 0;
    while i < names.len()
        invariant
            0 <= i <= names.len(),
            poll@ == (PollView {
                options: fresh_options(names_of(names@.subrange(0, i as int))),
                ..old(poll)@
            }),
        decreases names.len() - i,
    {
        poll.add_option(names[i].as_str());
        assert(names_of(names@.subrange(0, i + 1)) =~= names_of(names@.subrange(0, i as int)).push(names@[i as int]@));
        assert(fresh_options(names_of(names@.subrange(0, i + 1))) =~= fresh_options(names_of(names@.subrange(0, i as int))).push(
            crate::polling::OptionView { name: names@[i as int]@, votes: 0 },
        ));
        i = i + 1;
    }
    assert(names@.subrange(0, names.len() as int) =~= names@);
}

} // verus!
