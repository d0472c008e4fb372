//! Options, polls and the collection that routes votes to them.
use vstd::prelude::*;

verus! {

/// An option as a name and a tally.
pub struct OptionView {
    pub name: Seq<char>,
    pub votes: nat,
}

impl OptionView {
    /// The same option with one more vote.
    pub open spec fn bumped(self) -> OptionView {
        OptionView { name: self.name, votes: self.votes + 1 }
    }
}

/// The options that a list of names gives, each with no votes yet.
pub open spec fn fresh_options(names: Seq<Seq<char>>) -> Seq<OptionView> {
    names.map_values(|n: Seq<char>| OptionView { name: n, votes: 0 })
}

/// A named counter.
#[derive(Clone, Debug)]
pub struct PollOption {
    name: String,
    votes: usize,
}

impl View for PollOption {
    type V = OptionView;

    closed spec fn view(&self) -> OptionView {
        OptionView { name: self.name@, votes: self.votes as nat }
    }
}

impl PollOption {
    /// A new option with no votes.
    pub fn new(name: &str) -> (r: Self)
        ensures
            r@ == (OptionView { name: name@, votes: 0 }),
    {
        PollOption { name: name.to_owned(), votes: 0 }
    }

    /// An option with a tally already counted, as read back from a stored state.
    pub fn with_votes(name: String, votes: usize) -> (r: Self)
        ensures
            r@ == (OptionView { name: name@, votes: votes as nat }),
    {
        PollOption { name, votes }
    }

    pub fn name(&self) -> (r: &String)
        ensures
            r@ == self@.name,
    {
        &self.name
    }

    pub fn votes(&self) -> (r: usize)
        ensures
            r as nat == self@.votes,
    {
        self.votes
    }

    /// Counts one more vote.
    pub fn inc_vote(&mut self)
        requires
            old(self)@.votes < usize::MAX,
        ensures
            final(self)@ == old(self)@.bumped(),
    {
        self.votes = self.votes + 1;
    }
}


/// A submission as the poll id it targets and the names it chooses.
pub enum SubmissionView {
    Radio { uuid: Seq<char>, choice: Seq<char> },
    Checkbox { uuid: Seq<char>, choices: Seq<Seq<char>> },
}

impl SubmissionView {
    /// The id of the poll that the submission is meant for.
    pub open spec fn target(self) -> Seq<char> {
        match self {
            SubmissionView::Radio { uuid, .. } => uuid,
            SubmissionView::Checkbox { uuid, .. } => uuid,
        }
    }

    /// Whether the submission is of the kind that a multiple-choice poll takes.
    pub open spec fn is_multiple(self) -> bool {
        self is Checkbox
    }

    /// Whether the submission chooses the option of this name.
    pub open spec fn selects(self, name: Seq<char>) -> bool {
        match self {
            SubmissionView::Radio { choice, .. } => choice == name,
            SubmissionView::Checkbox { choices, .. } => choices.contains(name),
        }
    }
}

/// An incoming vote: one name for a single-choice poll, a list of names for a
/// multiple-choice poll.
#[derive(Clone, Debug)]
pub enum PollSubmission {
    Radio { uuid: String, choices: String },
    Checkbox { uuid: String, choices: Vec<String> },
}

/// The names that a list of strings holds.
pub open spec fn names_of(v: Seq<String>) -> Seq<Seq<char>> {
    v.map_values(|s: String| s@)
}

/// Whether `v` holds a string equal to `name`.
fn holds_name(v: &Vec<String>, name: &String) -> (r: bool)
    ensures
        r == names_of(v@).contains(name@),
{
    let mut i: usize = 0;
    while i < v.len()
        invariant
            0 <= i <= v.len(),
            forall|j: int| 0 <= j < i ==> v@[j]@ != name@,
        decreases v.len() - i,
    {
        if v[i] == *name {
            assert(names_of(v@)[i as int] == name@);
            return true;
        }
        i = i + 1;
    }
    false
}

impl View for PollSubmission {
    type V = SubmissionView;

    open spec fn view(&self) -> SubmissionView {
        match self {
            PollSubmission::Radio { uuid, choices } => SubmissionView::Radio {
                uuid: uuid@,
                choice: choices@,
            },
            PollSubmission::Checkbox { uuid, choices } => SubmissionView::Checkbox {
                uuid: uuid@,
                choices: names_of(choices@),
            },
        }
    }
}

impl PollSubmission {
    /// The id of the poll that the submission is meant for.
    pub fn uuid(&self) -> (r: &String)
        ensures
            r@ == self@.target(),
    {
        match self {
            PollSubmission::Checkbox { uuid, .. } => uuid,
            PollSubmission::Radio { uuid, .. } => uuid,
        }
    }

    /// Whether the submission chooses the option named `name`.
    fn selects(&self, name: &String) -> (r: bool)
        ensures
            r == self@.selects(name@),
    {
        match self {
            PollSubmission::Radio { choices, .. } => *choices == *name,
            PollSubmission::Checkbox { choices, .. } => holds_name(choices, name),
        }
    }
}

/// A form as sent by a client: several submissions at once.
#[derive(Clone, Debug)]
pub struct ExampleForm {
    submissions: Vec<PollSubmission>,
}

impl View for ExampleForm {
    type V = Seq<SubmissionView>;

    closed spec fn view(&self) -> Seq<SubmissionView> {
        self.submissions@.map_values(|s: PollSubmission| s@)
    }
}

impl ExampleForm {
    pub fn new(submissions: Vec<PollSubmission>) -> (r: Self)
        ensures
            r@ == submissions@.map_values(|s: PollSubmission| s@),
    {
        ExampleForm { submissions }
    }

    /// The submissions of the form, in the order they were sent.
    pub fn into_vec(self) -> (r: Vec<PollSubmission>)
        ensures
            r@.map_values(|s: PollSubmission| s@) == self@,
    {
        self.submissions
    }
}


/// A poll as its id, its title, whether it takes several choices, and its
/// options in order.
pub struct PollView {
    pub uuid: Seq<char>,
    pub title: Seq<char>,
    pub multiple: bool,
    pub options: Seq<OptionView>,
}

impl PollView {
    /// Whether the poll takes submissions of this kind.
    pub open spec fn accepts(self, s: SubmissionView) -> bool {
        s.is_multiple() == self.multiple
    }

    /// What an option becomes under a submission that the poll accepts.
    pub open spec fn counted(o: OptionView, s: SubmissionView) -> OptionView {
        if s.selects(o.name) {
            o.bumped()
        } else {
            o
        }
    }

    /// The poll after a submission: every option that it chooses gets one more
    /// vote where the kinds agree, and nothing changes where they do not.
    pub open spec fn apply(self, s: SubmissionView) -> PollView {
        if self.accepts(s) {
            PollView {
                uuid: self.uuid,
                title: self.title,
                multiple: self.multiple,
                options: self.options.map_values(|o: OptionView| PollView::counted(o, s)),
            }
        } else {
            self
        }
    }

    /// Whether every counter that the submission would raise can still grow.
    pub open spec fn has_room(self, s: SubmissionView) -> bool {
        self.accepts(s) ==> forall|i: int|
            0 <= i < self.options.len() && s.selects(#[trigger] self.options[i].name)
                ==> self.options[i].votes < usize::MAX
    }
}

/// The form of a poll id as its text: 36 characters, hyphens at 8, 13, 18, 23.
pub open spec fn is_hyphenated_id(id: Seq<char>) -> bool {
    &&& id.len() == 36
    &&& id[8] == '-'
    &&& id[13] == '-'
    &&& id[18] == '-'
    &&& id[23] == '-'
}

/// Relies on uuid::Uuid::new_v4 and its `Display`, which writes the
/// hyphenated form. The id is random: only its shape is known.
#[verifier::external_body]
fn fresh_poll_id() -> (r: String)
    ensures
        is_hyphenated_id(r@),
{
    uuid::Uuid::new_v4().to_string()
}

/// Why a poll turned a submission down.
#[derive(Clone, Copy, Debug, PartialEq, Eq, Structural)]
pub enum PollError {
    /// The submission is of the other kind than the poll (one name for a
    /// multiple-choice poll, or a list of names for a single-choice poll).
    InvalidSubmission,
}

/// A titled set of options that takes one kind of submission.
#[derive(Clone, Debug)]
pub struct Poll {
    uuid: String,
    title: String,
    options: Vec<PollOption>,
    multiple: bool,
}

/// The views of a list of options.
pub open spec fn option_views(v: Seq<PollOption>) -> Seq<OptionView> {
    v.map_values(|o: PollOption| o@)
}

impl View for Poll {
    type V = PollView;

    closed spec fn view(&self) -> PollView {
        PollView {
            uuid: self.uuid@,
            title: self.title@,
            multiple: self.multiple,
            options: option_views(self.options@),
        }
    }
}

impl Poll {
    pub fn uuid(&self) -> (r: String)
        ensures
            r@ == self@.uuid,
    {
        self.uuid.clone()
    }

    pub fn title(&self) -> (r: &String)
        ensures
            r@ == self@.title,
    {
        &self.title
    }

    /// Whether the poll takes several choices per submission.
    pub fn is_multiple(&self) -> (r: bool)
        ensures
            r == self@.multiple,
    {
        self.multiple
    }

    pub fn options(&self) -> (r: &Vec<PollOption>)
        ensures
            option_views(r@) == self@.options,
            r@.len() == self@.options.len(),
            forall|i: int| 0 <= i < r@.len() ==> (#[trigger] r@[i])@ == self@.options[i],
    {
        &self.options
    }

    /// Counts a submission: fails where its kind is not the poll's, and
    /// otherwise gives one vote to each option that it names. Names that match
    /// no option are passed over.
    pub fn process_submission(&mut self, submission: &PollSubmission) -> (r: Result<(), PollError>)
        requires
            old(self)@.has_room(submission@),
        ensures
            final(self)@ == old(self)@.apply(submission@),
            r is Ok <==> old(self)@.accepts(submission@),
    {
        let fits = match submission {
            PollSubmission::Radio { .. } => !self.multiple,
            PollSubmission::Checkbox { .. } => self.multiple,
        };
        if !fits {
            return Err(PollError::InvalidSubmission);
        }
        let ghost s = submission@;
        let ghost before = option_views(self.options@);
        let n = self.options.len();
        let mut i: usize = 0;
        while i < n
            invariant
                n == self.options.len(),
                0 <= i <= n,
                self.uuid == old(self).uuid,
                self.title == old(self).title,
                self.multiple == old(self).multiple,
                s == submission@,
                before == option_views(old(self).options@),
                before.len() == n,
                old(self)@.has_room(s),
                old(self)@.accepts(s),
                forall|j: int| 0 <= j < i ==> #[trigger] self.options@[j]@ == PollView::counted(before[j], s),
                forall|j: int| i <= j < n ==> #[trigger] self.options@[j] == old(self).options@[j],
            decreases n - i,
        {
            if submission.selects(&self.options[i].name) {
                assert(old(self)@.options[i as int] == self.options@[i as int]@);
                assert(s.selects(old(self)@.options[i as int].name));
                self.options[i].inc_vote();
            }
            i = i + 1;
        }
        assert(option_views(self.options@) =~= before.map_values(|o: OptionView| PollView::counted(o, s)));
        Ok(())
    }

    /// A multiple-choice poll with a fresh id and no options yet.
    pub fn multiple_choice(title: &str) -> (r: Self)
        ensures
            is_hyphenated_id(r@.uuid),
            r@.title == title@,
            r@.multiple,
            r@.options.len() == 0,
    {
        let uuid = fresh_poll_id();
        let r = Poll { uuid, title: title.to_owned(), options: Vec::new(), multiple: true };
        assert(r@.options =~= Seq::empty());
        r
    }

    /// A single-choice poll with a fresh id and no options yet.
    pub fn new(title: &str) -> (r: Self)
        ensures
            is_hyphenated_id(r@.uuid),
            r@.title == title@,
            !r@.multiple,
            r@.options.len() == 0,
    {
        let mut item = Self::multiple_choice(title);
        item.multiple = false;
        item
    }

    /// A poll put together from its parts, as read back from a stored state.
    pub fn from_parts(uuid: String, title: String, multiple: bool, options: Vec<PollOption>) -> (r: Self)
        ensures
            r@ == (PollView { uuid: uuid@, title: title@, multiple, options: option_views(options@) }),
    {
        Poll { uuid, title, options, multiple }
    }

    /// Appends an option with no votes.
    pub fn add_option(&mut self, name: &str)
        ensures
            final(self)@ == (PollView {
                options: old(self)@.options.push(OptionView { name: name@, votes: 0 }),
                ..old(self)@
            }),
    {
        self.options.push(PollOption::new(name));
        assert(option_views(self.options@) =~= option_views(old(self).options@).push(
            OptionView { name: name@, votes: 0 },
        ));
    }
}


/// The polls after a submission: each poll whose id is the submission's
/// target counts it, the others stay as they are.
pub open spec fn route(polls: Seq<PollView>, s: SubmissionView) -> Seq<PollView> {
    polls.map_values(|p: PollView| if p.uuid == s.target() { p.apply(s) } else { p })
}

/// Whether every poll that a submission targets has room for it.
pub open spec fn room_for(polls: Seq<PollView>, s: SubmissionView) -> bool {
    forall|k: int| 0 <= k < polls.len() && (#[trigger] polls[k]).uuid == s.target() ==> polls[k].has_room(s)
}

/// The views of a list of polls.
pub open spec fn poll_views(v: Seq<Poll>) -> Seq<PollView> {
    v.map_values(|p: Poll| p@)
}

/// All the polls of the running system.
#[derive(Clone, Debug)]
pub struct PollCollection {
    polls: Vec<Poll>,
}

impl View for PollCollection {
    type V = Seq<PollView>;

    closed spec fn view(&self) -> Seq<PollView> {
        poll_views(self.polls@)
    }
}

impl Default for PollCollection {
    /// A collection with no polls.
    fn default() -> (r: Self)
        ensures
            r@ == Seq::<PollView>::empty(),
    {
        let r = PollCollection { polls: Vec::new() };
        assert(r@ =~= Seq::<PollView>::empty());
        r
    }
}

impl PollCollection {
    /// Hands a submission to every poll whose id it names. A poll of the other
    /// kind turns it down and stays as it was; a submission that names no poll
    /// changes nothing.
    pub fn send_submission(&mut self, submission: PollSubmission)
        requires
            room_for(old(self)@, submission@),
        ensures
            final(self)@ == route(old(self)@, submission@),
    {
        let ghost s = submission@;
        let ghost before = old(self)@;
        let target = submission.uuid();
        let n = self.polls.len();
        let mut i: usize = 0;
        while i < n
            invariant
                n == self.polls.len(),
                0 <= i <= n,
                s == submission@,
                target@ == s.target(),
                before == old(self)@,
                before.len() == n,
                room_for(before, s),
                forall|j: int| 0 <= j < i ==> #[trigger] self.polls@[j]@ == (if before[j].uuid == s.target() {
                    before[j].apply(s)
                } else {
                    before[j]
                }),
                forall|j: int| i <= j < n ==> #[trigger] self.polls@[j] == old(self).polls@[j],
            decreases n - i,
        {
            assert(self.polls@[i as int]@ == before[i as int]);
            if self.polls[i].uuid() == *target {
                let _ = self.polls[i].process_submission(&submission);
            }
            i = i + 1;
        }
        assert(self@ =~= route(before, s));
    }

    /// Whether every poll that the submission targets can count it without a
    /// counter passing `usize::MAX`.
    pub fn has_room_for(&self, submission: &PollSubmission) -> (r: bool)
        ensures
            r == room_for(self@, submission@),
    {
        let target = submission.uuid();
        let mut k: usize = 0;
        while k < self.polls.len()
            invariant
                0 <= k <= self.polls.len(),
                target@ == submission@.target(),
                forall|j: int| 0 <= j < k && (#[trigger] self@[j]).uuid == submission@.target() ==> self@[j].has_room(submission@),
            decreases self.polls.len() - k,
        {
            let poll = &self.polls[k];
            assert(poll@ == self@[k as int]);
            if poll.uuid == *target {
                assert(poll@.uuid == submission@.target());
                let fits = match submission {
                    PollSubmission::Radio { .. } => !poll.multiple,
                    PollSubmission::Checkbox { .. } => poll.multiple,
                };
                if fits {
                    let mut i: usize = 0;
                    while i < poll.options.len()
                        invariant
                            0 <= i <= poll.options.len(),
                            k < self@.len(),
                            poll@ == self@[k as int],
                            poll@.uuid == submission@.target(),
                            poll@.accepts(submission@),
                            forall|j: int| 0 <= j < i && submission@.selects(#[trigger] poll@.options[j].name)
                                ==> poll@.options[j].votes < usize::MAX,
                        decreases poll.options.len() - i,
                    {
                        assert(poll.options@[i as int]@ == poll@.options[i as int]);
                        if submission.selects(&poll.options[i].name) && poll.options[i].votes == usize::MAX {
                            assert(submission@.selects(poll@.options[i as int].name));
                            assert(poll@.options[i as int].votes == usize::MAX);
                            assert(!self@[k as int].has_room(submission@));
                            return false;
                        }
                        i = i + 1;
                    }
                }
            }
            k = k + 1;
        }
        true
    }

    /// Appends a poll.
    pub fn push_poll(&mut self, poll: Poll)
        ensures
            final(self)@ == old(self)@.push(poll@),
    {
        self.polls.push(poll);
        assert(self@ =~= old(self)@.push(poll@));
    }

    /// The first poll with this title, to inspect or to count votes in.
    pub fn get_mut(&mut self, name: &str) -> (r: Option<&mut Poll>)
        ensures
            r is None <==> forall|k: int| 0 <= k < old(self)@.len() ==> old(self)@[k].title != name@,
            r is None ==> final(self)@ == old(self)@,
            r is Some ==> exists|k: int|
                0 <= k < old(self)@.len()
                && old(self)@[k].title == name@
                && (forall|j: int| 0 <= j < k ==> old(self)@[j].title != name@)
                && (*r->0)@ == old(self)@[k]
                && final(self)@ == old(self)@.update(k, (*final(r->0))@),
    {
        let key = name.to_owned();
        let mut i: usize = 0;
        while i < self.polls.len()
            invariant
                0 <= i <= self.polls.len(),
                key@ == name@,
                self == old(self),
                forall|j: int| 0 <= j < i ==> old(self)@[j].title != name@,
            decreases self.polls.len() - i,
        {
            assert(self.polls@[i as int]@ == old(self)@[i as int]);
            if self.polls[i].title == key {
                let r = &mut self.polls[i];
                return Some(r);
            }
            i = i + 1;
        }
        None
    }

    /// All the polls, in the order they were added, for reading.
    pub fn polls(&self) -> (r: &Vec<Poll>)
        ensures
            poll_views(r@) == self@,
            r@.len() == self@.len(),
            forall|k: int| 0 <= k < r@.len() ==> (#[trigger] r@[k])@ == self@[k],
    {
        &self.polls
    }

    /// A collection of the given polls, as read back from a stored state.
    pub fn from_polls(polls: Vec<Poll>) -> (r: Self)
        ensures
            r@ == poll_views(polls@),
    {
        PollCollection { polls }
    }
}

} // verus!
