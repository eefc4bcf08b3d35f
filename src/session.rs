use vstd::prelude::*;
use crate::book::{BookView, KindleBook};
use crate::scan::KindleDevice;

verus! {

/// A completed scan and the book chosen from it, by its position in the
/// library.
#[derive(Debug, Clone)]
pub struct State {
    pub kindle: KindleDevice,
    pub selected_book: Option<usize>,
}

/// Where the session stands.
#[derive(Debug, Clone)]
pub enum Phase {
    /// No device known yet: the probe is being repeated.
    TryingToConnect,
    /// The device is present and its books are being read.
    Connected,
    /// The books of the device are known.
    LoadedBooks(State),
}

/// What reaches the session: results of the work it started, tagged with the
/// generation that started them, and requests from the user.
#[derive(Debug, Clone)]
pub enum Message {
    /// The user asks to start over.
    Refresh,
    /// The probe found no device.
    WaitingForDevice(u64),
    /// The probe found the device.
    Connected(u64),
    /// A scan completed with this library.
    LoadedBooks(u64, KindleDevice),
    /// The user picked a book.
    SelectedBook(KindleBook),
}

/// The work that the session asks its runner to do next. Its result comes back
/// as a message tagged with the same generation.
#[derive(Debug, Clone, Copy, PartialEq, Eq)]
pub enum Action {
    Nothing,
    /// Probe for the device now.
    Probe(u64),
    /// Wait one polling interval, then probe for the device.
    ProbeLater(u64),
    /// Scan the device for books.
    Scan(u64),
}

/// The discovery session: its phase and the generation of the cycle under way.
/// Results tagged with another generation are stale and are ignored.
#[derive(Debug)]
pub struct Kindler {
    pub phase: Phase,
    pub generation: u64,
}

pub open spec fn next_generation(g: u64) -> u64 {
    if g == u64::MAX {
        0
    } else {
        (g + 1) as u64
    }
}

/// Whether some book of the library has the value `b`.
pub open spec fn holds_book(books: Seq<KindleBook>, b: BookView) -> bool {
    exists|i: int| 0 <= i < books.len() && #[trigger] books[i]@ == b
}

/// The position of the first book of the library with the value `b`.
pub open spec fn first_index_of(books: Seq<KindleBook>, b: BookView) -> int {
    choose|i: int|
        0 <= i < books.len() && #[trigger] books[i]@ == b && forall|j: int|
            0 <= j < i ==> books[j]@ != b
}

/// The transition of the session on one message, and the work it asks for.
pub open spec fn step(k: Kindler, m: Message) -> (Kindler, Action) {
    match (k.phase, m) {
        (Phase::TryingToConnect, Message::WaitingForDevice(g)) => if g == k.generation {
            (k, Action::ProbeLater(g))
        } else {
            (k, Action::Nothing)
        },
        (Phase::TryingToConnect, Message::Connected(g)) => if g == k.generation {
            (Kindler { phase: Phase::Connected, generation: g }, Action::Scan(g))
        } else {
            (k, Action::Nothing)
        },
        (Phase::Connected, Message::LoadedBooks(g, lib)) => if g == k.generation {
            (
                Kindler {
                    phase: Phase::LoadedBooks(State { kindle: lib, selected_book: None }),
                    generation: g,
                },
                Action::Nothing,
            )
        } else {
            (k, Action::Nothing)
        },
        (Phase::LoadedBooks(_), Message::Refresh) => {
            let g = next_generation(k.generation);
            (Kindler { phase: Phase::TryingToConnect, generation: g }, Action::Probe(g))
        },
        (Phase::LoadedBooks(s), Message::SelectedBook(b)) => if holds_book(s.kindle.books@, b@) {
            (
                Kindler {
                    phase: Phase::LoadedBooks(
                        State {
                            kindle: s.kindle,
                            selected_book: Some(first_index_of(s.kindle.books@, b@) as usize),
                        },
                    ),
                    generation: k.generation,
                },
                Action::Nothing,
            )
        } else {
            (k, Action::Nothing)
        },
        _ => (k, Action::Nothing),
    }
}

impl Kindler {
    /// A selection, when present, is a position in the current library.
    pub open spec fn wf(&self) -> bool {
        match self.phase {
            Phase::LoadedBooks(s) => match s.selected_book {
                Some(i) => i < s.kindle.books@.len(),
                None => true,
            },
            _ => true,
        }
    }

    /// A new session, waiting for the device, and the first probe to run.
    pub fn new() -> (r: (Kindler, Action))
        ensures
            r.0.phase is TryingToConnect,
            r.0.generation == 0,
            r.0.wf(),
            r.1 == Action::Probe(0),
    {
        (Kindler { phase: Phase::TryingToConnect, generation: 0 }, Action::Probe(0))
    }

    /// Applies one message to the session and returns the work to start.
    pub fn update(&mut self, message: Message) -> (r: Action)
        requires
            old(self).wf(),
        ensures
            (*final(self), r) == step(*old(self), message),
            final(self).wf(),
    {
        let g = self.generation;
        let mut phase = Phase::TryingToConnect;
        std::mem::swap(&mut self.phase, &mut phase);
        match (phase, message) {
            (Phase::TryingToConnect, Message::WaitingForDevice(h)) => {
                self.phase = Phase::TryingToConnect;
                if h == g {
                    Action::ProbeLater(g)
                } else {
                    Action::Nothing
                }
            },
            (Phase::TryingToConnect, Message::Connected(h)) => {
                if h == g {
                    self.phase = Phase::Connected;
                    Action::Scan(g)
                } else {
                    self.phase = Phase::TryingToConnect;
                    Action::Nothing
                }
            },
            (Phase::Connected, Message::LoadedBooks(h, lib)) => {
                if h == g {
                    self.phase = Phase::LoadedBooks(State { kindle: lib, selected_book: None });
                } else {
                    self.phase = Phase::Connected;
                }
                Action::Nothing
            },
            (Phase::LoadedBooks(_), Message::Refresh) => {
                let next = if g == u64::MAX {
                    0
                } else {
                    g + 1
                };
                self.generation = next;
                self.phase = Phase::TryingToConnect;
                Action::Probe(next)
            },
            (Phase::LoadedBooks(s), Message::SelectedBook(b)) => {
                let found = find_book(&s.kindle.books, &b);
                match found {
                    Some(i) => {
                        self.phase = Phase::LoadedBooks(
                            State { kindle: s.kindle, selected_book: Some(i) },
                        );
                    },
                    None => {
                        self.phase = Phase::LoadedBooks(s);
                    },
                }
                Action::Nothing
            },
            (p, _) => {
                self.phase = p;
                Action::Nothing
            },
        }
    }
}

/// Picking a book that the current library does not hold changes nothing.
pub proof fn selecting_unknown_book_is_ignored(k: Kindler, b: KindleBook)
    requires
        k.phase matches Phase::LoadedBooks(s) && !holds_book(s.kindle.books@, b@),
    ensures
        step(k, Message::SelectedBook(b)) == (k, Action::Nothing),
{
}

/// Picking a book of the current library selects its first copy there and
/// keeps the library.
pub proof fn selecting_known_book_selects_it(k: Kindler, b: KindleBook)
    requires
        k.wf(),
        k.phase matches Phase::LoadedBooks(s) && holds_book(s.kindle.books@, b@),
    ensures
        ({
            let (k2, a) = step(k, Message::SelectedBook(b));
            &&& a == Action::Nothing
            &&& k2.wf()
            &&& k2.generation == k.generation
            &&& k2.phase matches Phase::LoadedBooks(s2) && (k.phase matches Phase::LoadedBooks(s)
                && (s2.kindle == s.kindle && (s2.selected_book matches Some(i)
                && s2.kindle.books@[i as int]@ == b@)))
        }),
{
    if let Phase::LoadedBooks(s) = k.phase {
        let books = s.kindle.books@;
        let w = choose|i: int| 0 <= i < books.len() && #[trigger] books[i]@ == b@;
        first_match_exists(books, b@, w);
        let i = first_index_of(books, b@);
        assert(0 <= i < books.len() && books[i]@ == b@);
        assert(s.kindle.books.len() == books.len());
    }
}

/// Where the library holds `b` at `w`, the first position that holds it exists.
proof fn first_match_exists(books: Seq<KindleBook>, b: BookView, w: int)
    requires
        0 <= w < books.len(),
        books[w]@ == b,
    ensures
        exists|i: int|
            0 <= i < books.len() && #[trigger] books[i]@ == b && forall|j: int|
                0 <= j < i ==> books[j]@ != b,
    decreases w,
{
    if exists|j: int| 0 <= j < w && books[j]@ == b {
        let j = choose|j: int| 0 <= j < w && books[j]@ == b;
        first_match_exists(books, b, j);
    } else {
        assert(forall|j: int| 0 <= j < w ==> books[j]@ != b);
    }
}

/// A refresh from a loaded library starts a new cycle that waits for the
/// device, and results of the earlier cycle never bring it back to a loaded
/// library: not while it waits for the device, nor after the device is found.
pub proof fn refresh_discards_stale_scan(k: Kindler, lib: KindleDevice)
    requires
        k.phase is LoadedBooks,
    ensures
        ({
            let (k1, a) = step(k, Message::Refresh);
            let (k2, _) = step(k1, Message::Connected(k1.generation));
            &&& k1.phase is TryingToConnect
            &&& a == Action::Probe(k1.generation)
            &&& k1.generation != k.generation
            &&& step(k1, Message::LoadedBooks(k.generation, lib)) == (k1, Action::Nothing)
            &&& k2.phase is Connected
            &&& step(k2, Message::LoadedBooks(k.generation, lib)) == (k2, Action::Nothing)
        }),
{
}

/// While no device is known, the session leaves that phase only when the
/// probe of the current cycle reports the device present; a probe that finds
/// nothing asks for another one after the interval.
pub proof fn waits_until_device_found(k: Kindler, m: Message)
    requires
        k.phase is TryingToConnect,
    ensures
        step(k, m).0.phase is TryingToConnect || m == Message::Connected(k.generation),
        m == Message::WaitingForDevice(k.generation) ==> step(k, m) == (k, Action::ProbeLater(
            k.generation,
        )),
{
}

/// Every message keeps the session well formed.
pub proof fn step_keeps_wf(k: Kindler, m: Message)
    requires
        k.wf(),
    ensures
        step(k, m).0.wf(),
{
    if let (Phase::LoadedBooks(s), Message::SelectedBook(b)) = (k.phase, m) {
        if holds_book(s.kindle.books@, b@) {
            selecting_known_book_selects_it(k, b);
        }
    }
}

/// The position of the first book of the library equal to `b`, if any.
pub fn find_book(books: &Vec<KindleBook>, b: &KindleBook) -> (r: Option<usize>)
    ensures
        r is None <==> !holds_book(books@, b@),
        r matches Some(i) ==> i == first_index_of(books@, b@) && i < books@.len(),
{
    let mut i: usize = 0;
    while i < books.len()
        invariant
            i <= books@.len(),
            forall|j: int| 0 <= j < i ==> books@[j]@ != b@,
        decreases books@.len() - i,
    {
        if books[i].same_as(b) {
            proof {
                let k = first_index_of(books@, b@);
                assert(books@[i as int]@ == b@);
                if k < i {
                    assert(books@[k]@ != b@);
                }
                if k > i {
                    assert(books@[i as int]@ != b@);
                }
            }
            return Some(i);
        }
        i = i + 1;
    }
    None
}

} // verus!
