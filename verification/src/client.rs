//! Finding the messaging client's shared library.

use crate::requests::texts;
use crate::text::optional_text;
use vstd::prelude::*;

verus! {

/// The entry point that creates a client.
pub const CREATE_ENTRY_POINT: &'static str = "td_json_client_create";

/// The entry point that sends a request.
pub const SEND_ENTRY_POINT: &'static str = "td_json_client_send";

/// The entry point that receives an event.
pub const RECEIVE_ENTRY_POINT: &'static str = "td_json_client_receive";

/// Why no client is at hand.
#[derive(Clone, Copy, Debug, PartialEq, Eq, Structural)]
pub enum ClientError {
    /// No candidate location holds a library with the entry points.
    ClientUnavailable,
}

/// The locations where the library is looked for, in order: the explicit
/// one if there is one, then the places where the system installs it, then
/// the working directory.
pub open spec fn candidate_locations(explicit: Option<Seq<char>>, macos: bool) -> Seq<Seq<char>> {
    let conventional = if macos {
        seq![
            "/usr/local/lib/libtdjson.dylib"@,
            "/opt/homebrew/lib/libtdjson.dylib"@,
            "./libtdjson.dylib"@,
        ]
    } else {
        seq!["/usr/local/lib/libtdjson.so"@, "/usr/lib/libtdjson.so"@, "./libtdjson.so"@]
    };
    match explicit {
        Some(path) => seq![path] + conventional,
        None => conventional,
    }
}

/// What the caller of the search does next.
pub enum SearchAction {
    /// Try to load the library at this location and resolve its entry
    /// points, then report whether both worked.
    Probe(String),
    /// Use the library at this location: it was the one probed last.
    Use(String),
    /// Give up.
    Fail(ClientError),
}

/// What the caller of the search does next, as plain values.
pub enum SearchActionView {
    Probe(Seq<char>),
    Use(Seq<char>),
    Fail(ClientError),
}

impl View for SearchAction {
    type V = SearchActionView;

    open spec fn view(&self) -> SearchActionView {
        match self {
            SearchAction::Probe(path) => SearchActionView::Probe(path@),
            SearchAction::Use(path) => SearchActionView::Use(path@),
            SearchAction::Fail(error) => SearchActionView::Fail(*error),
        }
    }
}

/// A search through the candidate locations, one probe at a time.
pub struct LibrarySearch {
    candidates: Vec<String>,
    position: usize,
}

/// A search as plain values: the locations, and the index of the one that
/// is being probed.
pub struct LibrarySearchView {
    pub candidates: Seq<Seq<char>>,
    pub position: int,
}

/// What is done at position `position` of a search.
pub open spec fn probe_or_fail(candidates: Seq<Seq<char>>, position: int) -> SearchActionView {
    if 0 <= position < candidates.len() {
        SearchActionView::Probe(candidates[position])
    } else {
        SearchActionView::Fail(ClientError::ClientUnavailable)
    }
}

/// The search after a probe reported `usable`, and what the caller does
/// next: a usable location is used, otherwise the next one is probed, and
/// after the last one the search fails.
pub open spec fn search_next(before: LibrarySearchView, usable: bool) -> (
    LibrarySearchView,
    SearchActionView,
) {
    if before.position >= before.candidates.len() {
        (before, SearchActionView::Fail(ClientError::ClientUnavailable))
    } else if usable {
        (before, SearchActionView::Use(before.candidates[before.position]))
    } else {
        (
            LibrarySearchView { candidates: before.candidates, position: before.position + 1 },
            probe_or_fail(before.candidates, before.position + 1),
        )
    }
}

/// The locations where the library is looked for, in order.
pub fn library_candidates(explicit: Option<String>, macos: bool) -> (r: Vec<String>)
    ensures
        texts(r@) == candidate_locations(optional_text(explicit), macos),
{
    let mut out: Vec<String> = Vec::new();
    match explicit {
        Some(path) => {
            out.push(path);
        },
        None => {},
    }
    if macos {
        out.push("/usr/local/lib/libtdjson.dylib".to_owned());
        out.push("/opt/homebrew/lib/libtdjson.dylib".to_owned());
        out.push("./libtdjson.dylib".to_owned());
    } else {
        out.push("/usr/local/lib/libtdjson.so".to_owned());
        out.push("/usr/lib/libtdjson.so".to_owned());
        out.push("./libtdjson.so".to_owned());
    }
    assert(texts(out@) =~= candidate_locations(optional_text(explicit), macos));
    out
}

impl View for LibrarySearch {
    type V = LibrarySearchView;

    closed spec fn view(&self) -> LibrarySearchView {
        LibrarySearchView { candidates: texts(self.candidates@), position: self.position as int }
    }
}

impl LibrarySearch {
    /// The position is at most one past the last location.
    pub open spec fn wf(&self) -> bool {
        0 <= self@.position <= self@.candidates.len()
    }

    /// A search at its first location, and the first thing to do.
    pub fn start(explicit: Option<String>, macos: bool) -> (r: (Self, SearchAction))
        ensures
            r.0.wf(),
            r.0@.position == 0,
            r.0@.candidates == candidate_locations(optional_text(explicit), macos),
            r.1@ == probe_or_fail(r.0@.candidates, 0),
    {
        let candidates = library_candidates(explicit, macos);
        let search = LibrarySearch { candidates, position: 0 };
        let action = search.current();
        (search, action)
    }

    /// What is done at the current position.
    fn current(&self) -> (r: SearchAction)
        requires
            self.wf(),
        ensures
            r@ == probe_or_fail(self@.candidates, self@.position),
    {
        if self.position < self.candidates.len() {
            SearchAction::Probe(self.candidates[self.position].clone())
        } else {
            SearchAction::Fail(ClientError::ClientUnavailable)
        }
    }

    /// Takes the report of the last probe and says what to do next.
    pub fn on_probe(&mut self, usable: bool) -> (r: SearchAction)
        requires
            old(self).wf(),
        ensures
            final(self).wf(),
            (final(self)@, r@) == search_next(old(self)@, usable),
    {
        if self.position >= self.candidates.len() {
            SearchAction::Fail(ClientError::ClientUnavailable)
        } else if usable {
            SearchAction::Use(self.candidates[self.position].clone())
        } else {
            self.position = self.position + 1;
            self.current()
        }
    }
}

} // verus!
