use vstd::prelude::*;

use crate::watch_history::PlexWatchHistoryItem;

verus! {

/// Number of records asked for in each history request.
pub const DEFAULT_PAGE_SIZE: u32 = 100;

/// What the driver of a history sequence has to do after asking for the
/// next record.
#[derive(Debug)]
pub enum HistoryAction {
    /// Hand this record to the consumer.
    Emit(PlexWatchHistoryItem),
    /// Request the page of `page_size` records that starts at `offset`, then
    /// pass the outcome to `WatchHistoryIterator::receive_page`.
    Fetch { offset: u32, page_size: u32 },
    /// The sequence is over, for good.
    End,
}

/// Abstract state of a history sequence.
pub struct HistoryState {
    /// Library section the history is filtered by.
    pub section: Seq<char>,
    /// Records of the current page not yet handed out, in server order.
    pub pending: Seq<PlexWatchHistoryItem>,
    /// Number of records received so far; where the next page starts.
    pub offset: nat,
    pub page_size: nat,
    /// A short page was received: no further request will be made.
    pub last_page: bool,
    /// The sequence has ended (empty page, error, or drained last page).
    pub finished: bool,
}

/// Pull-based sequence of watch-history records over the paged history
/// endpoint.
///
/// The sequence makes no request itself: `next_action` says whether a record
/// is ready, the sequence is over, or a page has to be fetched, and the page
/// (or the error) is handed back through `receive_page`.
pub struct WatchHistoryIterator {
    library_section_id: String,
    current_items: Vec<PlexWatchHistoryItem>,
    offset: u32,
    page_size: u32,
    is_last_page: bool,
    finished: bool,
}

impl View for WatchHistoryIterator {
    type V = HistoryState;

    closed spec fn view(&self) -> HistoryState {
        HistoryState {
            section: self.library_section_id@,
            pending: self.current_items@,
            offset: self.offset as nat,
            page_size: self.page_size as nat,
            last_page: self.is_last_page,
            finished: self.finished,
        }
    }
}

/// State of a fresh sequence.
pub open spec fn initial_state(section: Seq<char>, page_size: nat) -> HistoryState {
    HistoryState {
        section,
        pending: Seq::empty(),
        offset: 0,
        page_size,
        last_page: false,
        finished: false,
    }
}

/// The sequence has nothing buffered and must fetch before it can go on.
pub open spec fn awaiting_page(s: HistoryState) -> bool {
    !s.finished && s.pending.len() == 0 && !s.last_page
}

/// What asking for the next record yields in state `s`.
pub open spec fn poll_result(s: HistoryState) -> HistoryAction {
    if s.finished {
        HistoryAction::End
    } else if s.pending.len() > 0 {
        HistoryAction::Emit(s.pending[0])
    } else if s.last_page {
        HistoryAction::End
    } else {
        HistoryAction::Fetch { offset: s.offset as u32, page_size: s.page_size as u32 }
    }
}

/// State after asking for the next record in state `s`.
pub open spec fn after_poll(s: HistoryState) -> HistoryState {
    if s.finished {
        s
    } else if s.pending.len() > 0 {
        HistoryState { pending: s.pending.drop_first(), ..s }
    } else if s.last_page {
        HistoryState { finished: true, ..s }
    } else {
        s
    }
}

/// State after the requested page arrived holding `page`; its first record,
/// if any, has been handed out.
pub open spec fn after_page(s: HistoryState, page: Seq<PlexWatchHistoryItem>) -> HistoryState {
    if page.len() == 0 {
        HistoryState { finished: true, ..s }
    } else {
        HistoryState {
            pending: page.drop_first(),
            offset: s.offset + page.len(),
            last_page: page.len() < s.page_size,
            ..s
        }
    }
}

/// State after the requested page failed.
pub open spec fn after_failure(s: HistoryState) -> HistoryState {
    HistoryState { finished: true, ..s }
}

impl WatchHistoryIterator {
    /// A fresh sequence over the history of one library section, asking for
    /// `DEFAULT_PAGE_SIZE` records per request.
    pub fn new(library_section_id: &str) -> (r: Self)
        ensures
            r@ == initial_state(library_section_id@, DEFAULT_PAGE_SIZE as nat),
    {
        Self::with_page_size(library_section_id, DEFAULT_PAGE_SIZE)
    }

    /// A fresh sequence that asks for `page_size` records per request.
    pub fn with_page_size(library_section_id: &str, page_size: u32) -> (r: Self)
        ensures
            r@ == initial_state(library_section_id@, page_size as nat),
    {
        WatchHistoryIterator {
            library_section_id: String::from_str(library_section_id),
            current_items: Vec::new(),
            offset: 0,
            page_size,
            is_last_page: false,
            finished: false,
        }
    }

    /// Library section the history is filtered by.
    pub fn library_section_id(&self) -> (r: &str)
        ensures
            r@ == self@.section,
    {
        self.library_section_id.as_str()
    }

    /// Where the next page starts: the number of records received so far.
    pub fn offset(&self) -> (r: u32)
        ensures
            r as nat == self@.offset,
    {
        self.offset
    }

    /// Number of records asked for in each request.
    pub fn page_size(&self) -> (r: u32)
        ensures
            r as nat == self@.page_size,
    {
        self.page_size
    }

    /// The sequence has ended; it will neither fetch nor yield again.
    pub fn is_finished(&self) -> (r: bool)
        ensures
            r == self@.finished,
    {
        self.finished
    }

    /// Asks for the next record: hands out a buffered record, ends the
    /// sequence, or asks the caller to fetch the next page.
    pub fn next_action(&mut self) -> (r: HistoryAction)
        ensures
            r == poll_result(old(self)@),
            final(self)@ == after_poll(old(self)@),
    {
        if self.finished {
            return HistoryAction::End;
        }
        if self.current_items.len() > 0 {
            let item = self.current_items.remove(0);
            proof {
                assert(self.current_items@ =~= old(self).current_items@.drop_first());
            }
            return HistoryAction::Emit(item);
        }
        if self.is_last_page {
            self.finished = true;
            return HistoryAction::End;
        }
        HistoryAction::Fetch { offset: self.offset, page_size: self.page_size }
    }

    /// Takes the outcome of the fetch that `next_action` asked for and
    /// answers the pending request for a record: the page's first record,
    /// `None` for an empty page (end of history), or the error. An empty page
    /// and an error both end the sequence.
    pub fn receive_page<E>(&mut self, page: Result<Vec<PlexWatchHistoryItem>, E>) -> (r: Option<
        Result<PlexWatchHistoryItem, E>,
    >)
        requires
            awaiting_page(old(self)@),
            page matches Ok(p) ==> old(self)@.offset + p@.len() <= u32::MAX,
        ensures
            match page {
                Err(e) => {
                    &&& r == Some(Err::<PlexWatchHistoryItem, E>(e))
                    &&& final(self)@ == after_failure(old(self)@)
                },
                Ok(p) => {
                    &&& r == (if p@.len() == 0 {
                        None
                    } else {
                        Some(Ok::<PlexWatchHistoryItem, E>(p@[0]))
                    })
                    &&& final(self)@ == after_page(old(self)@, p@)
                },
            },
    {
        match page {
            Err(e) => {
                self.finished = true;
                Some(Err(e))
            },
            Ok(mut items) => {
                if items.len() == 0 {
                    self.finished = true;
                    return None;
                }
                let received = items.len() as u32;
                let first = items.remove(0);
                proof {
                    assert(items@ =~= page->Ok_0@.drop_first());
                }
                self.current_items = items;
                if received < self.page_size {
                    self.is_last_page = true;
                }
                self.offset = self.offset + received;
                Some(Ok(first))
            },
        }
    }
}

} // verus!
