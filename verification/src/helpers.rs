//! Scroll and selection bookkeeping: wrapping movement over the torrents
//! table and over the list inside the info tab, and the proofs that the
//! movement is cyclic.

use vstd::prelude::*;
use vstd::string::StringExecFns;

use crate::enums::{ScrollContext, SelectedInfoTab};
use crate::model::{Priority, State, TrackerStatus};
use crate::signals::Message;
use crate::{App, ScrollbarState, TableState};

verus! {

/// The index that follows `i` in a cyclic walk over `n` positions:
/// advancing past the last position selects the first.
pub open spec fn next_in_cycle(i: int, n: int) -> int {
    if i >= n - 1 {
        0
    } else {
        i + 1
    }
}

/// The index that precedes `i` in a cyclic walk over `n` positions:
/// retreating past the first position selects the last.
pub open spec fn previous_in_cycle(i: int, n: int) -> int {
    if i == 0 {
        n - 1
    } else {
        i - 1
    }
}

/// The index reached from `i` after `k` forward steps of the cyclic walk.
pub open spec fn iter_next_in_cycle(i: int, n: int, k: nat) -> int
    decreases k,
{
    if k == 0 {
        i
    } else {
        next_in_cycle(iter_next_in_cycle(i, n, (k - 1) as nat), n)
    }
}

/// The index reached from `i` after `k` backward steps of the cyclic walk.
pub open spec fn iter_previous_in_cycle(i: int, n: int, k: nat) -> int
    decreases k,
{
    if k == 0 {
        i
    } else {
        previous_in_cycle(iter_previous_in_cycle(i, n, (k - 1) as nat), n)
    }
}

/// After `k` forward steps the walk stands at `(i + k) % n`.
proof fn lemma_iter_next_formula(i: int, n: int, k: nat)
    requires
        0 <= i < n,
    ensures
        iter_next_in_cycle(i, n, k) == (i + k) % n,
    decreases k,
{
    if k == 0 {
        vstd::arithmetic::div_mod::lemma_small_mod(i as nat, n as nat);
    } else {
        lemma_iter_next_formula(i, n, (k - 1) as nat);
        let v = (i + k - 1) % n;
        vstd::arithmetic::div_mod::lemma_mod_division_less_than_divisor(i + k - 1, n);
        if v == n - 1 {
            vstd::arithmetic::div_mod::lemma_mod_self_0(n);
            vstd::arithmetic::div_mod::lemma_add_mod_noop_right(i + k - 1, 1, n);
            assert((v + 1) % n == 0) by {
                vstd::arithmetic::div_mod::lemma_mod_self_0(n);
            };
            assert(next_in_cycle(v, n) == 0);
            assert((i + k) % n == ((i + k - 1) % n + 1) % n) by {
                vstd::arithmetic::div_mod::lemma_add_mod_noop(i + k - 1, 1, n);
                if n == 1 {
                    vstd::arithmetic::div_mod::lemma_mod_self_0(n);
                } else {
                    vstd::arithmetic::div_mod::lemma_small_mod(1, n as nat);
                }
            };
        } else {
            assert(next_in_cycle(v, n) == v + 1);
            assert((i + k) % n == ((i + k - 1) % n + 1) % n) by {
                vstd::arithmetic::div_mod::lemma_add_mod_noop(i + k - 1, 1, n);
                if n == 1 {
                    vstd::arithmetic::div_mod::lemma_mod_self_0(n);
                } else {
                    vstd::arithmetic::div_mod::lemma_small_mod(1, n as nat);
                }
            };
            vstd::arithmetic::div_mod::lemma_small_mod((v + 1) as nat, n as nat);
        }
    }
}

/// Over a collection of `n` positions, `n` forward steps return the walk to
/// the index it started from.
pub proof fn lemma_cycle_next(i: int, n: int)
    requires
        0 <= i < n,
    ensures
        iter_next_in_cycle(i, n, n as nat) == i,
{
    lemma_iter_next_formula(i, n, n as nat);
    vstd::arithmetic::div_mod::lemma_mod_add_multiples_vanish(i, n);
    vstd::arithmetic::div_mod::lemma_small_mod(i as nat, n as nat);
}

/// One forward step undoes one backward step, and the other way round.
proof fn lemma_next_of_previous(i: int, n: int)
    requires
        0 <= i < n,
    ensures
        next_in_cycle(previous_in_cycle(i, n), n) == i,
        previous_in_cycle(next_in_cycle(i, n), n) == i,
        0 <= previous_in_cycle(i, n) < n,
        0 <= next_in_cycle(i, n) < n,
{
}

/// The first backward step of a walk can be taken out of the iteration.
proof fn lemma_iter_previous_shift(i: int, n: int, k: nat)
    requires
        k >= 1,
    ensures
        iter_previous_in_cycle(i, n, k) == iter_previous_in_cycle(
            previous_in_cycle(i, n),
            n,
            (k - 1) as nat,
        ),
    decreases k,
{
    let p = previous_in_cycle(i, n);
    if k == 1 {
        assert(iter_previous_in_cycle(i, n, 1) == previous_in_cycle(
            iter_previous_in_cycle(i, n, 0),
            n,
        ));
    } else {
        lemma_iter_previous_shift(i, n, (k - 1) as nat);
        assert(iter_previous_in_cycle(i, n, k) == previous_in_cycle(
            iter_previous_in_cycle(i, n, (k - 1) as nat),
            n,
        ));
        assert(iter_previous_in_cycle(p, n, (k - 1) as nat) == previous_in_cycle(
            iter_previous_in_cycle(p, n, (k - 2) as nat),
            n,
        ));
    }
}

/// `k` forward steps undo `k` backward steps, and the walk never leaves the
/// collection.
proof fn lemma_next_undoes_previous(i: int, n: int, k: nat)
    requires
        0 <= i < n,
    ensures
        0 <= iter_previous_in_cycle(i, n, k) < n,
        iter_next_in_cycle(iter_previous_in_cycle(i, n, k), n, k) == i,
    decreases k,
{
    if k > 0 {
        let j = previous_in_cycle(i, n);
        lemma_next_of_previous(i, n);
        lemma_iter_previous_shift(i, n, k);
        lemma_next_undoes_previous(j, n, (k - 1) as nat);
    }
}

/// Over a collection of `n` positions, `n` backward steps return the walk
/// to the index it started from.
pub proof fn lemma_cycle_previous(i: int, n: int)
    requires
        0 <= i < n,
    ensures
        iter_previous_in_cycle(i, n, n as nat) == i,
{
    let x = iter_previous_in_cycle(i, n, n as nat);
    lemma_next_undoes_previous(i, n, n as nat);
    lemma_cycle_next(x, n);
}

/// The selection after one forward movement over a collection of length
/// `len`: with nothing selected the first entry is selected; otherwise the
/// walk advances cyclically.  Over an empty collection nothing moves.
pub open spec fn spec_scroll_next(sel: Option<usize>, len: int) -> Option<usize> {
    if len == 0 {
        sel
    } else {
        match sel {
            Some(i) => Some(next_in_cycle(i as int, len) as usize),
            None => Some(0usize),
        }
    }
}

/// The selection after one backward movement over a collection of length
/// `len`; the counterpart of [`spec_scroll_next`].
pub open spec fn spec_scroll_previous(sel: Option<usize>, len: int) -> Option<usize> {
    if len == 0 {
        sel
    } else {
        match sel {
            Some(i) => Some(previous_in_cycle(i as int, len) as usize),
            None => Some(0usize),
        }
    }
}

/// The selection reached after `k` forward movements over a collection of
/// length `len`.
pub open spec fn iter_scroll_next(sel: Option<usize>, len: int, k: nat) -> Option<usize>
    decreases k,
{
    if k == 0 {
        sel
    } else {
        spec_scroll_next(iter_scroll_next(sel, len, (k - 1) as nat), len)
    }
}

/// The selection reached after `k` backward movements over a collection of
/// length `len`.
pub open spec fn iter_scroll_previous(sel: Option<usize>, len: int, k: nat) -> Option<usize>
    decreases k,
{
    if k == 0 {
        sel
    } else {
        spec_scroll_previous(iter_scroll_previous(sel, len, (k - 1) as nat), len)
    }
}

/// A selected walk stays selected and follows the cyclic walk of its index.
proof fn lemma_iter_scroll_next_selected(i: usize, len: int, k: nat)
    requires
        0 < len <= usize::MAX,
        i < len,
    ensures
        iter_scroll_next(Some(i), len, k) == Some(iter_next_in_cycle(i as int, len, k) as usize),
        0 <= iter_next_in_cycle(i as int, len, k) < len,
    decreases k,
{
    lemma_iter_next_formula(i as int, len, k);
    vstd::arithmetic::div_mod::lemma_mod_division_less_than_divisor(i + k, len);
    if k > 0 {
        lemma_iter_scroll_next_selected(i, len, (k - 1) as nat);
    }
}

/// The backward counterpart of [`lemma_iter_scroll_next_selected`].
proof fn lemma_iter_scroll_previous_selected(i: usize, len: int, k: nat)
    requires
        0 < len <= usize::MAX,
        i < len,
    ensures
        iter_scroll_previous(Some(i), len, k) == Some(
            iter_previous_in_cycle(i as int, len, k) as usize,
        ),
        0 <= iter_previous_in_cycle(i as int, len, k) < len,
    decreases k,
{
    lemma_next_undoes_previous(i as int, len, k);
    if k > 0 {
        lemma_iter_scroll_previous_selected(i, len, (k - 1) as nat);
        lemma_next_undoes_previous(i as int, len, (k - 1) as nat);
    }
}

/// Moving the selection forward exactly as many times as the collection is
/// long returns it to the index it started from.
pub proof fn lemma_scroll_next_cycles(i: usize, len: int)
    requires
        0 < len <= usize::MAX,
        i < len,
    ensures
        iter_scroll_next(Some(i), len, len as nat) == Some(i),
{
    lemma_iter_scroll_next_selected(i, len, len as nat);
    lemma_cycle_next(i as int, len);
}

/// Moving the selection backward exactly as many times as the collection
/// is long returns it to the index it started from.
pub proof fn lemma_scroll_previous_cycles(i: usize, len: int)
    requires
        0 < len <= usize::MAX,
        i < len,
    ensures
        iter_scroll_previous(Some(i), len, len as nat) == Some(i),
{
    lemma_iter_scroll_previous_selected(i, len, len as nat);
    lemma_cycle_previous(i as int, len);
}

/// Moving the selection in either direction keeps it inside the snapshot:
/// the selection invariant of the torrents table is preserved by every
/// scroll movement.
pub proof fn lemma_scroll_preserves_selection(a: App, b: App, msg: Option<Message>)
    requires
        a.torrents@.len() <= usize::MAX,
        a.selection_in_range(),
        scroll_down_rel(a, b, msg) || scroll_up_rel(a, b, msg),
    ensures
        b.selection_in_range(),
{
}

/// How one downward movement relates the state `b` and message `msg` to the
/// state `a` it started from: the walk advances in the list the scroll keys
/// address, the matching scrollbar follows, and everything else stays.
pub open spec fn scroll_down_rel(a: App, b: App, msg: Option<Message>) -> bool {
    match a.scroll_context {
        ScrollContext::TorrentsTable => {
            let n = a.torrents@.len() as int;
            let sel = spec_scroll_next(a.state.selected, n);
            &&& b == (App { state: (TableState { selected: sel }), scroll_state: b.scroll_state, ..a
            })
            &&& b.scroll_state == (if n == 0 {
                a.scroll_state
            } else {
                ScrollbarState { position: sel.unwrap(), ..a.scroll_state }
            })
            &&& msg == (if n > 0 && a.torrent_popup {
                a.info_tab.spec_update_message()
            } else {
                None
            })
        },
        ScrollContext::InfoTab => {
            let n = a.spec_info_tab_len();
            let sel = spec_scroll_next(a.info_tab_state.selected, n);
            &&& b == (App {
                info_tab_state: (TableState { selected: sel }),
                info_tab_scroll_state: b.info_tab_scroll_state,
                ..a
            })
            &&& b.info_tab_scroll_state == (if n == 0 {
                a.info_tab_scroll_state
            } else {
                ScrollbarState { position: sel.unwrap(), ..a.info_tab_scroll_state }
            })
            &&& msg is None
        },
    }
}

/// How one upward movement relates the state `b` and message `msg` to the
/// state `a` it started from; the counterpart of [`scroll_down_rel`].
pub open spec fn scroll_up_rel(a: App, b: App, msg: Option<Message>) -> bool {
    match a.scroll_context {
        ScrollContext::TorrentsTable => {
            let n = a.torrents@.len() as int;
            let sel = spec_scroll_previous(a.state.selected, n);
            &&& b == (App { state: (TableState { selected: sel }), scroll_state: b.scroll_state, ..a
            })
            &&& b.scroll_state == (if n == 0 {
                a.scroll_state
            } else {
                ScrollbarState { position: sel.unwrap(), ..a.scroll_state }
            })
            &&& msg == (if n > 0 && a.torrent_popup {
                a.info_tab.spec_update_message()
            } else {
                None
            })
        },
        ScrollContext::InfoTab => {
            let n = a.spec_info_tab_len();
            let sel = spec_scroll_previous(a.info_tab_state.selected, n);
            &&& b == (App {
                info_tab_state: (TableState { selected: sel }),
                info_tab_scroll_state: b.info_tab_scroll_state,
                ..a
            })
            &&& b.info_tab_scroll_state == (if n == 0 {
                a.info_tab_scroll_state
            } else {
                ScrollbarState { position: sel.unwrap(), ..a.info_tab_scroll_state }
            })
            &&& msg is None
        },
    }
}

impl App {
    /// The selection invariant of the torrents table: over an empty
    /// snapshot nothing is selected, and a selection always points at an
    /// entry of the snapshot.
    pub open spec fn selection_in_range(self) -> bool {
        &&& self.torrents@.len() == 0 ==> self.state.selected is None
        &&& match self.state.selected {
            Some(i) => i < self.torrents@.len(),
            None => true,
        }
    }

    /// The number of entries shown by the current info tab; the details tab
    /// shows no list, and a peer list that was never fetched counts as
    /// empty.
    pub open spec fn spec_info_tab_len(self) -> int {
        match self.info_tab {
            SelectedInfoTab::Trackers => self.torrent_trackers@.len() as int,
            SelectedInfoTab::Peers => match self.torrent_peers {
                Some(peers) => peers@.len() as int,
                None => 0,
            },
            SelectedInfoTab::Files => self.torrent_content@.len() as int,
            SelectedInfoTab::Details => 0,
        }
    }

    /// Returns the number of entries shown by the current info tab; this
    /// gives the scrollbar of the tab its length.
    pub fn info_tab_elements_length(&self) -> (n: usize)
        ensures
            n == self.spec_info_tab_len(),
    {
        match self.info_tab {
            SelectedInfoTab::Trackers => self.torrent_trackers.len(),
            SelectedInfoTab::Peers => match &self.torrent_peers {
                Some(peers) => peers.len(),
                None => 0,
            },
            SelectedInfoTab::Files => self.torrent_content.len(),
            SelectedInfoTab::Details => 0,
        }
    }

    /// Resizes the info-tab scrollbar to the given content and viewport and
    /// hands the scroll keys to the info-tab list.
    pub fn info_tab_scrollbar(&mut self, length: usize, viewport: usize)
        ensures
            *final(self) == (App {
                info_tab_scroll_state: (ScrollbarState {
                    content_length: length,
                    viewport_content_length: viewport,
                    ..old(self).info_tab_scroll_state
                }),
                scroll_context: ScrollContext::InfoTab,
                ..*old(self)
            }),
    {
        self.info_tab_scroll_state = self.info_tab_scroll_state.content_length(
            length,
        ).viewport_content_length(viewport);
        self.scroll_context = ScrollContext::InfoTab;
    }

    /// Moves the selection one entry down in the list the scroll keys
    /// currently address, wrapping past the last entry; over an empty list
    /// nothing moves.  Moving inside the torrents table while the info
    /// popup is open returns the message that refreshes the tab's content
    /// for the newly selected torrent.
    pub fn scroll_down(&mut self) -> (msg: Option<Message>)
        ensures
            scroll_down_rel(*old(self), *final(self), msg),
    {
        match self.scroll_context {
            ScrollContext::TorrentsTable => {
                let n = self.torrents.len();
                if n > 0 {
                    let i = match self.state.selected() {
                        Some(i) => if i >= n - 1 {
                            0
                        } else {
                            i + 1
                        },
                        None => 0,
                    };
                    self.state.select(Some(i));
                    self.scroll_state = self.scroll_state.position(i);
                    if self.torrent_popup {
                        return self.info_tab.update_selected();
                    }
                }
            },
            ScrollContext::InfoTab => {
                let n = self.info_tab_elements_length();
                if n > 0 {
                    let i = match self.info_tab_state.selected() {
                        Some(i) => if i >= n - 1 {
                            0
                        } else {
                            i + 1
                        },
                        None => 0,
                    };
                    self.info_tab_state.select(Some(i));
                    self.info_tab_scroll_state = self.info_tab_scroll_state.position(i);
                }
            },
        }
        None
    }

    /// Moves the selection one entry up in the list the scroll keys
    /// currently address, wrapping past the first entry; the counterpart of
    /// [`App::scroll_down`].
    pub fn scroll_up(&mut self) -> (msg: Option<Message>)
        ensures
            scroll_up_rel(*old(self), *final(self), msg),
    {
        match self.scroll_context {
            ScrollContext::TorrentsTable => {
                let n = self.torrents.len();
                if n > 0 {
                    let i = match self.state.selected() {
                        Some(i) => if i == 0 {
                            n - 1
                        } else {
                            i - 1
                        },
                        None => 0,
                    };
                    self.state.select(Some(i));
                    self.scroll_state = self.scroll_state.position(i);
                    if self.torrent_popup {
                        return self.info_tab.update_selected();
                    }
                }
            },
            ScrollContext::InfoTab => {
                let n = self.info_tab_elements_length();
                if n > 0 {
                    let i = match self.info_tab_state.selected() {
                        Some(i) => if i == 0 {
                            n - 1
                        } else {
                            i - 1
                        },
                        None => 0,
                    };
                    self.info_tab_state.select(Some(i));
                    self.info_tab_scroll_state = self.info_tab_scroll_state.position(i);
                }
            },
        }
        None
    }
}

/// The digit character for a value below ten.
pub open spec fn digit_char(d: nat) -> char {
    if d == 0 {
        '0'
    } else if d == 1 {
        '1'
    } else if d == 2 {
        '2'
    } else if d == 3 {
        '3'
    } else if d == 4 {
        '4'
    } else if d == 5 {
        '5'
    } else if d == 6 {
        '6'
    } else if d == 7 {
        '7'
    } else if d == 8 {
        '8'
    } else {
        '9'
    }
}

/// The decimal rendering of a number: its digits, most significant first,
/// with no sign and no leading zero except for the number zero itself.
pub open spec fn spec_decimal(n: nat) -> Seq<char>
    decreases n,
{
    if n < 10 {
        seq![digit_char(n)]
    } else {
        spec_decimal(n / 10).push(digit_char(n % 10))
    }
}

/// The string slice holding one decimal digit.
fn digit_str(d: u64) -> (r: &'static str)
    requires
        d < 10,
    ensures
        r@ == seq![digit_char(d as nat)],
{
    if d == 0 {
        proof {
            reveal_strlit("0");
            assert("0"@ =~= seq![digit_char(0)]);
        }
        "0"
    } else if d == 1 {
        proof {
            reveal_strlit("1");
            assert("1"@ =~= seq![digit_char(1)]);
        }
        "1"
    } else if d == 2 {
        proof {
            reveal_strlit("2");
            assert("2"@ =~= seq![digit_char(2)]);
        }
        "2"
    } else if d == 3 {
        proof {
            reveal_strlit("3");
            assert("3"@ =~= seq![digit_char(3)]);
        }
        "3"
    } else if d == 4 {
        proof {
            reveal_strlit("4");
            assert("4"@ =~= seq![digit_char(4)]);
        }
        "4"
    } else if d == 5 {
        proof {
            reveal_strlit("5");
            assert("5"@ =~= seq![digit_char(5)]);
        }
        "5"
    } else if d == 6 {
        proof {
            reveal_strlit("6");
            assert("6"@ =~= seq![digit_char(6)]);
        }
        "6"
    } else if d == 7 {
        proof {
            reveal_strlit("7");
            assert("7"@ =~= seq![digit_char(7)]);
        }
        "7"
    } else if d == 8 {
        proof {
            reveal_strlit("8");
            assert("8"@ =~= seq![digit_char(8)]);
        }
        "8"
    } else {
        proof {
            reveal_strlit("9");
            assert("9"@ =~= seq![digit_char(9)]);
        }
        "9"
    }
}

/// Appends the decimal rendering of `n` to `s`.
fn push_decimal(s: &mut String, n: u64)
    ensures
        final(s)@ == old(s)@ + spec_decimal(n as nat),
    decreases n,
{
    if n < 10 {
        s.append(digit_str(n));
    } else {
        push_decimal(s, n / 10);
        s.append(digit_str(n % 10));
        proof {
            assert(final(s)@ =~= old(s)@ + spec_decimal(n as nat));
        }
    }
}

/// Appends one component of a duration to `acc`: nothing when its value is
/// not positive, otherwise the value and its unit letter, preceded by the
/// separator when something already stands in `acc`.
pub open spec fn spec_append_part(acc: Seq<char>, v: int, suffix: char) -> Seq<char> {
    if v > 0 {
        (if acc.len() == 0 {
            acc
        } else {
            acc.push(':')
        }) + spec_decimal(v as nat).push(suffix)
    } else {
        acc
    }
}

/// Appends one duration component to the string being built, as
/// [`spec_append_part`] describes.
fn append_part(out: &mut String, v: u64, suffix: &str)
    requires
        suffix@.len() == 1,
    ensures
        final(out)@ == spec_append_part(old(out)@, v as int, suffix@[0]),
{
    if v > 0 {
        if !out.as_str().is_empty() {
            proof {
                reveal_strlit(":");
            }
            out.append(":");
            proof {
                assert(out@ =~= old(out)@.push(':'));
            }
        }
        push_decimal(out, v);
        out.append(suffix);
        proof {
            assert(suffix@ =~= seq![suffix@[0]]);
            assert(final(out)@ =~= spec_append_part(old(out)@, v as int, suffix@[0]));
        }
    }
}

/// The rendering of a number of seconds as weeks, days, hours, minutes
/// and seconds, joined by the separator, with the components that are zero
/// left out: a duration with nothing positive in it — and the sentinel
/// value the remote service reports for a finished transfer — renders as
/// the single digit zero.
pub open spec fn spec_format_seconds(seconds: int) -> Seq<char> {
    if seconds == 8640000 || seconds <= 0 {
        seq!['0']
    } else {
        let p1 = spec_append_part(Seq::empty(), seconds / 604800, 'W');
        let p2 = spec_append_part(p1, (seconds % 604800) / 86400, 'D');
        let p3 = spec_append_part(p2, (seconds % 86400) / 3600, 'H');
        let p4 = spec_append_part(p3, (seconds % 3600) / 60, 'M');
        let p5 = spec_append_part(p4, seconds % 60, 'S');
        p5
    }
}

impl App {
    /// Renders a number of elapsed seconds in the form the footer shows,
    /// such as a count of weeks, days, hours, minutes and seconds joined
    /// by colons, with empty components left out.
    pub fn format_seconds(&self, seconds: i64) -> (r: String)
        ensures
            r@ == spec_format_seconds(seconds as int),
    {
        if seconds == 8640000 || seconds <= 0 {
            proof {
                reveal_strlit("0");
                assert("0"@ =~= seq!['0']);
            }
            return String::from_str("0");
        }
        let total = seconds as u64;
        let weeks = total / 604800;
        let days = (total % 604800) / 86400;
        let hours = (total % 86400) / 3600;
        let minutes = (total % 3600) / 60;
        let secs = total % 60;
        let mut out = String::new();
        proof {
            reveal_strlit("W");
            reveal_strlit("D");
            reveal_strlit("H");
            reveal_strlit("M");
            reveal_strlit("S");
        }
        append_part(&mut out, weeks, "W");
        append_part(&mut out, days, "D");
        append_part(&mut out, hours, "H");
        append_part(&mut out, minutes, "M");
        append_part(&mut out, secs, "S");
        out
    }

    /// The label shown for a torrent state; states the table does not
    /// distinguish, and an absent state, share the last label.
    pub open spec fn spec_torrent_state_label(torrent_state: Option<State>) -> Seq<char> {
        match torrent_state {
            Some(State::Error) => "Error"@,
            Some(State::MissingFiles) => "Missing Files"@,
            Some(State::Uploading) | Some(State::StalledUP) | Some(State::ForcedUP) => "Seeding"@,
            Some(State::CheckingUP) | Some(State::CheckingDL) | Some(State::CheckingResumeData) =>
                "Checking"@,
            Some(State::PausedUP) => "Completed"@,
            Some(State::QueuedUP) => "Queued"@,
            Some(State::Allocating) => "Allocating"@,
            Some(State::Downloading) | Some(State::MetaDL) | Some(State::ForcedDL) =>
                "Downloading"@,
            Some(State::PausedDL) => "Paused"@,
            Some(State::StalledDL) => "Stalled"@,
            Some(State::Moving) => "Moving"@,
            Some(State::Unknown) => "Unknown"@,
            _ => "Very Unknown"@,
        }
    }

    /// Renders a torrent state as the label the table shows.
    pub fn get_torrent_state(&self, torrent_state: Option<State>) -> (r: String)
        ensures
            r@ == Self::spec_torrent_state_label(torrent_state),
    {
        match torrent_state {
            Some(State::Error) => String::from_str("Error"),
            Some(State::MissingFiles) => String::from_str("Missing Files"),
            Some(State::Uploading) | Some(State::StalledUP) | Some(State::ForcedUP) =>
                String::from_str("Seeding"),
            Some(State::CheckingUP) | Some(State::CheckingDL) | Some(State::CheckingResumeData) =>
                String::from_str("Checking"),
            Some(State::PausedUP) => String::from_str("Completed"),
            Some(State::QueuedUP) => String::from_str("Queued"),
            Some(State::Allocating) => String::from_str("Allocating"),
            Some(State::Downloading) | Some(State::MetaDL) | Some(State::ForcedDL) =>
                String::from_str("Downloading"),
            Some(State::PausedDL) => String::from_str("Paused"),
            Some(State::StalledDL) => String::from_str("Stalled"),
            Some(State::Moving) => String::from_str("Moving"),
            Some(State::Unknown) => String::from_str("Unknown"),
            _ => String::from_str("Very Unknown"),
        }
    }

    /// The label shown for a tracker status.
    pub open spec fn spec_tracker_status_label(status: TrackerStatus) -> Seq<char> {
        match status {
            TrackerStatus::Disabled => "Disabled"@,
            TrackerStatus::NotContacted => "Not Contacted"@,
            TrackerStatus::Working => "Working"@,
            TrackerStatus::Updating => "Updating"@,
            TrackerStatus::NotWorking => "Not Working"@,
        }
    }

    /// Renders a tracker status as the label the trackers tab shows.
    pub fn get_tracker_status(&self, status: TrackerStatus) -> (r: String)
        ensures
            r@ == Self::spec_tracker_status_label(status),
    {
        match status {
            TrackerStatus::Disabled => String::from_str("Disabled"),
            TrackerStatus::NotContacted => String::from_str("Not Contacted"),
            TrackerStatus::Working => String::from_str("Working"),
            TrackerStatus::Updating => String::from_str("Updating"),
            TrackerStatus::NotWorking => String::from_str("Not Working"),
        }
    }

    /// The label shown for a file priority.
    pub open spec fn spec_priority_label(priority: Priority) -> Seq<char> {
        match priority {
            Priority::DoNotDownload => "Do Not Download"@,
            Priority::Normal => "Normal"@,
            Priority::Mixed => "Medium"@,
            Priority::High => "High"@,
            Priority::Maximal => "Max"@,
        }
    }

    /// Renders a file priority as the label the files tab shows.
    pub fn format_priority(&self, priority: Priority) -> (r: String)
        ensures
            r@ == Self::spec_priority_label(priority),
    {
        match priority {
            Priority::DoNotDownload => String::from_str("Do Not Download"),
            Priority::Normal => String::from_str("Normal"),
            Priority::Mixed => String::from_str("Medium"),
            Priority::High => String::from_str("High"),
            Priority::Maximal => String::from_str("Max"),
        }
    }
}

/// The rendering of a Unix timestamp as a calendar date and time of day,
/// or nothing for a timestamp outside the representable range.  The result
/// depends on the timestamp alone.
pub uninterp spec fn timestamp_rendering(ts: int) -> Option<Seq<char>>;

/// Relies on chrono's `DateTime::from_timestamp` and `format`: turning a
/// Unix timestamp into a formatted UTC date-and-time string — `None` for a
/// timestamp whose date falls outside chrono's range — is a deterministic
/// function of the timestamp.
#[verifier::external_body]
fn render_timestamp(ts: i64) -> (r: Option<String>)
    ensures
        r.deep_view() == timestamp_rendering(ts as int),
{
    chrono::DateTime::from_timestamp(ts, 0).map(
        |datetime| datetime.format("%Y-%m-%d %H:%M:%S").to_string(),
    )
}

impl App {
    /// Renders a Unix timestamp for display: the formatted date and time,
    /// a note for a timestamp outside the representable range, and a
    /// placeholder when the remote service reported none at all.
    pub fn timestamp_human_readable(&self, timestamp: Option<i64>) -> (r: String)
        ensures
            match timestamp {
                None => r@ == "N/A"@,
                Some(ts) => match timestamp_rendering(ts as int) {
                    Some(s) => r@ == s,
                    None => r@ == "Invalid timestamp"@,
                },
            },
    {
        match timestamp {
            Some(ts) => match render_timestamp(ts) {
                Some(rendered) => rendered,
                None => String::from_str("Invalid timestamp"),
            },
            None => String::from_str("N/A"),
        }
    }
}

} // verus!
