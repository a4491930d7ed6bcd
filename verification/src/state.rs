//! The data that a frame is drawn from: chat entries, the table that gives each
//! remote user a colour index, and the snapshot of the interface state.

use vstd::prelude::*;
use vstd::hash_map::StringHashMap;

verus! {

/// A time of day, as contracts speak of it.
pub struct TimeView {
    pub hour: nat,
    pub minute: nat,
    pub second: nat,
}

impl TimeView {
    /// Hours lie below 24, minutes and seconds below 60.
    pub open spec fn valid(self) -> bool {
        self.hour < 24 && self.minute < 60 && self.second < 60
    }
}

/// The wall-clock time at which an entry was logged, to the second.
#[derive(Clone, Copy, Debug, PartialEq, Eq)]
pub struct Timestamp {
    hour: u8,
    minute: u8,
    second: u8,
}

impl View for Timestamp {
    type V = TimeView;

    closed spec fn view(&self) -> TimeView {
        TimeView { hour: self.hour as nat, minute: self.minute as nat, second: self.second as nat }
    }
}

impl Timestamp {
    /// Every timestamp is a time of day.
    #[verifier::type_invariant]
    closed spec fn wf(self) -> bool {
        self@.valid()
    }

    /// The time `hour:minute:second`, if there is such a time of day.
    pub fn new(hour: u8, minute: u8, second: u8) -> (t: Option<Timestamp>)
        ensures
            t is Some <==> hour < 24 && minute < 60 && second < 60,
            t matches Some(ts) ==> ts@ == (TimeView {
                hour: hour as nat,
                minute: minute as nat,
                second: second as nat,
            }),
    {
        if hour < 24 && minute < 60 && second < 60 {
            Some(Timestamp { hour, minute, second })
        } else {
            None
        }
    }

    /// The hour, from 0 to 23.
    pub fn hour(&self) -> (h: u8)
        ensures
            h == self@.hour,
            self@.valid(),
    {
        proof {
            use_type_invariant(self);
        }
        self.hour
    }

    /// The minute, from 0 to 59.
    pub fn minute(&self) -> (m: u8)
        ensures
            m == self@.minute,
            self@.valid(),
    {
        proof {
            use_type_invariant(self);
        }
        self.minute
    }

    /// The second, from 0 to 59.
    pub fn second(&self) -> (s: u8)
        ensures
            s == self@.second,
            self@.valid(),
    {
        proof {
            use_type_invariant(self);
        }
        self.second
    }
}

/// How grave a notice of the program itself is.
#[derive(Clone, Copy, Debug, PartialEq, Eq)]
pub enum Severity {
    Info,
    Error,
}

/// A message kind, as contracts speak of it.
pub enum KindView {
    Connection,
    Disconnection,
    Content(Seq<char>),
    SystemNotice(Seq<char>, Severity),
}

/// What an entry of the chat log reports.
#[derive(Clone, Debug, PartialEq, Eq)]
pub enum MessageKind {
    /// The user joined the room.
    Connection,
    /// The user left the room.
    Disconnection,
    /// The user said something.
    Content(String),
    /// The program itself reports something.
    SystemNotice(String, Severity),
}

impl View for MessageKind {
    type V = KindView;

    open spec fn view(&self) -> KindView {
        match self {
            MessageKind::Connection => KindView::Connection,
            MessageKind::Disconnection => KindView::Disconnection,
            MessageKind::Content(text) => KindView::Content(text@),
            MessageKind::SystemNotice(text, severity) => KindView::SystemNotice(text@, *severity),
        }
    }
}

/// A chat entry, as contracts speak of it.
pub struct EntryView {
    pub user: Seq<char>,
    pub time: TimeView,
    pub kind: KindView,
}

/// One record of the chat log.
#[derive(Clone, Debug, PartialEq, Eq)]
pub struct ChatEntry {
    pub user: String,
    pub timestamp: Timestamp,
    pub kind: MessageKind,
}

impl View for ChatEntry {
    type V = EntryView;

    open spec fn view(&self) -> EntryView {
        EntryView { user: self.user@, time: self.timestamp@, kind: self.kind@ }
    }
}

/// The views of a sequence of entries, in order.
pub open spec fn entry_views(entries: Seq<ChatEntry>) -> Seq<EntryView> {
    entries.map_values(|e: ChatEntry| e@)
}

/// The index that each known remote user was given when first seen.
///
/// Indices are handed out in order, from zero. The local user is never entered,
/// so a user without an index is drawn in the colour kept for the local user.
pub struct UserColorTable {
    ids: StringHashMap<usize>,
    next: usize,
}

impl View for UserColorTable {
    type V = Map<Seq<char>, usize>;

    closed spec fn view(&self) -> Map<Seq<char>, usize> {
        self.ids@
    }
}

/// The table and the next free index after `user` was seen, where `ids` and
/// `next` were the table and the next free index before.
pub open spec fn registered(ids: Map<Seq<char>, usize>, next: nat, user: Seq<char>) -> (
    Map<Seq<char>, usize>,
    nat,
) {
    if ids.contains_key(user) || next >= usize::MAX {
        (ids, next)
    } else {
        (ids.insert(user, next as usize), next + 1)
    }
}

/// The table and the next free index after the users of `history` were seen in turn.
pub open spec fn table_after(history: Seq<Seq<char>>) -> (Map<Seq<char>, usize>, nat)
    decreases history.len(),
{
    if history.len() == 0 {
        (Map::empty(), 0)
    } else {
        let before = table_after(history.drop_last());
        registered(before.0, before.1, history.last())
    }
}

/// Every index of `ids` lies below `next`.
pub open spec fn indices_below(ids: Map<Seq<char>, usize>, next: nat) -> bool {
    forall|user: Seq<char>| ids.contains_key(user) ==> #[trigger] ids[user] < next
}

impl UserColorTable {
    /// No index in the table has reached the next free index.
    #[verifier::type_invariant]
    closed spec fn wf(self) -> bool {
        indices_below(self.ids@, self.next as nat)
    }

    /// The index that the next new user will get.
    pub closed spec fn next_index(&self) -> nat {
        self.next as nat
    }

    /// A table that knows no user.
    pub fn new() -> (table: UserColorTable)
        ensures
            table@ == Map::<Seq<char>, usize>::empty(),
            table.next_index() == 0,
    {
        UserColorTable { ids: StringHashMap::new(), next: 0 }
    }

    /// The index of `user`, if the table knows the user.
    pub fn get(&self, user: &str) -> (index: Option<usize>)
        ensures
            index == (if self@.contains_key(user@) {
                Some(self@[user@])
            } else {
                None
            }),
    {
        match self.ids.get(user) {
            Some(index) => Some(*index),
            None => None,
        }
    }

    /// Sees `user`: a user that the table knows keeps its index, and a new one
    /// gets the next free index. Returns the user's index, or `None` where the
    /// user is new and no index is left.
    pub fn register(&mut self, user: &str) -> (index: Option<usize>)
        ensures
            (final(self)@, final(self).next_index()) == registered(
                old(self)@,
                old(self).next_index(),
                user@,
            ),
            index == (if final(self)@.contains_key(user@) {
                Some(final(self)@[user@])
            } else {
                None
            }),
            index is None <==> !old(self)@.contains_key(user@) && old(self).next_index()
                == usize::MAX,
            indices_below(final(self)@, final(self).next_index()),
    {
        proof {
            use_type_invariant(&*self);
        }
        match self.ids.get(user) {
            Some(index) => Some(*index),
            None => {
                if self.next == usize::MAX {
                    None
                } else {
                    let index = self.next;
                    // The map leaves the table while it grows: the table's
                    // indices lie below `next` at every step.
                    let mut ids: StringHashMap<usize> = StringHashMap::new();
                    std::mem::swap(&mut self.ids, &mut ids);
                    ids.insert(user.to_owned(), index);
                    self.next = index + 1;
                    std::mem::swap(&mut self.ids, &mut ids);
                    Some(index)
                }
            },
        }
    }
}

/// Whatever users were seen, no index in the table has reached the next free index.
pub proof fn lemma_indices_below_next(history: Seq<Seq<char>>)
    ensures
        indices_below(table_after(history).0, table_after(history).1),
    decreases history.len(),
{
    if history.len() > 0 {
        lemma_indices_below_next(history.drop_last());
    }
}

/// A user that was never seen has no index, however many others were seen:
/// such a user, as the local user is, takes no colour of the palette.
pub proof fn lemma_unseen_user_has_no_index(history: Seq<Seq<char>>, user: Seq<char>)
    requires
        !history.contains(user),
    ensures
        !table_after(history).0.contains_key(user),
    decreases history.len(),
{
    if history.len() > 0 {
        lemma_unseen_user_has_no_index(history.drop_last(), user);
    }
}

/// The index that a user gets when first seen is the next free index at that
/// moment, which the users seen before determine.
pub proof fn lemma_first_sight_index(history: Seq<Seq<char>>, user: Seq<char>)
    requires
        !table_after(history).0.contains_key(user),
        table_after(history).1 < usize::MAX,
    ensures
        table_after(history.push(user)).0.contains_key(user),
        table_after(history.push(user)).0[user] == table_after(history).1,
{
    assert(history.push(user).drop_last() =~= history);
}

/// A user keeps the index it has, whoever is seen afterwards.
pub proof fn lemma_index_is_stable(
    history: Seq<Seq<char>>,
    later: Seq<Seq<char>>,
    user: Seq<char>,
)
    requires
        table_after(history).0.contains_key(user),
    ensures
        table_after(history + later).0.contains_key(user),
        table_after(history + later).0[user] == table_after(history).0[user],
    decreases later.len(),
{
    if later.len() > 0 {
        lemma_index_is_stable(history, later.drop_last(), user);
        assert((history + later).drop_last() =~= history + later.drop_last());
    }
}

/// Two users never share an index.
pub proof fn lemma_indices_are_distinct(history: Seq<Seq<char>>, a: Seq<char>, b: Seq<char>)
    requires
        table_after(history).0.contains_key(a),
        table_after(history).0.contains_key(b),
        a != b,
    ensures
        table_after(history).0[a] != table_after(history).0[b],
    decreases history.len(),
{
    if history.len() > 0 {
        let earlier = history.drop_last();
        let before = table_after(earlier);
        lemma_indices_below_next(earlier);
        if before.0.contains_key(a) && before.0.contains_key(b) {
            lemma_indices_are_distinct(earlier, a, b);
        }
    }
}

/// The transient state of the interface together with the chat log: all that
/// one frame is drawn from.
pub struct ApplicationState {
    /// The chat log, oldest entry first.
    pub messages: Vec<ChatEntry>,
    /// The colour indices of the remote users.
    pub users_id: UserColorTable,
    /// The parts sent and the parts in all of the file being sent, if one is.
    pub progress: Option<(usize, usize)>,
    /// The draft of the next message.
    pub input: Vec<char>,
    /// The cursor's place in the draft, counted in characters.
    pub input_cursor: usize,
    /// By how many display lines the transcript is scrolled.
    pub scroll_messages_view: usize,
}

/// The state, as contracts speak of it.
pub struct StateView {
    pub messages: Seq<EntryView>,
    pub users: Map<Seq<char>, usize>,
    pub progress: Option<(usize, usize)>,
    pub input: Seq<char>,
    pub input_cursor: nat,
    pub scroll: nat,
}

impl View for ApplicationState {
    type V = StateView;

    open spec fn view(&self) -> StateView {
        StateView {
            messages: entry_views(self.messages@),
            users: self.users_id@,
            progress: self.progress,
            input: self.input@,
            input_cursor: self.input_cursor as nat,
            scroll: self.scroll_messages_view as nat,
        }
    }
}

impl ApplicationState {
    /// The state of a session in which nothing has happened yet: the log and
    /// the draft are empty, no user is known and the first one will get index
    /// zero, nothing is being sent, and nothing is scrolled.
    pub fn new() -> (state: ApplicationState)
        ensures
            state@.messages.len() == 0,
            state@.users == Map::<Seq<char>, usize>::empty(),
            state.users_id.next_index() == 0,
            state@.progress is None,
            state@.input.len() == 0,
            state@.input_cursor == 0,
            state@.scroll == 0,
    {
        ApplicationState {
            messages: Vec::new(),
            users_id: UserColorTable::new(),
            progress: None,
            input: Vec::new(),
            input_cursor: 0,
            scroll_messages_view: 0,
        }
    }
}

} // verus!
