//! What the window system tells about processes: which one has the focus,
//! and which window titles belong to which process.
//!
//! A platform that has a window system lists its windows and hands them to
//! `collect_window_titles`. `get_focused_pid` and `get_window_titles` are the
//! answers of a platform that has none.

use std::collections::HashMap;
use vstd::prelude::*;

verus! {

/// One top-level window, as the window system lists it.
#[derive(Debug)]
pub struct WindowEntry {
    /// The process that owns the window, 0 where it is not known.
    pub pid: u32,
    pub visible: bool,
    pub title: String,
}

/// A window counts for its process when it is visible, has a title and its
/// process is known.
pub open spec fn titles_a_process(window: WindowEntry) -> bool {
    window.visible && window.title@.len() > 0 && window.pid != 0
}

/// The window at `at` is the first in the list that counts for its process.
pub open spec fn is_first_window_of_process(windows: Seq<WindowEntry>, at: int) -> bool {
    &&& 0 <= at < windows.len()
    &&& titles_a_process(windows[at])
    &&& forall|k: int|
        0 <= k < at ==> !(titles_a_process(#[trigger] windows[k]) && windows[k].pid
            == windows[at].pid)
}

/// Some window among the first `upto` counts for the process `pid`.
pub open spec fn has_titled_window(windows: Seq<WindowEntry>, upto: int, pid: u32) -> bool {
    exists|i: int| 0 <= i < upto && titles_a_process(#[trigger] windows[i]) && windows[i].pid == pid
}

/// The process that has the focus, where the platform cannot tell: none.
pub fn get_focused_pid() -> (pid: Option<u32>)
    ensures
        pid is None,
{
    None
}

/// The window titles by process, where the platform lists no windows: none.
pub fn get_window_titles() -> (titles: HashMap<u32, String>)
    ensures
        titles@ == Map::<u32, String>::empty(),
{
    HashMap::new()
}

/// The process that owns the focused window: none where no window has the
/// focus or its process is not known.
pub fn focused_pid_of(window_found: bool, pid: u32) -> (focused: Option<u32>)
    ensures
        focused == if window_found && pid != 0 {
            Some(pid)
        } else {
            None
        },
{
    if window_found && pid != 0 {
        Some(pid)
    } else {
        None
    }
}

/// The title of each process's first window that counts, in the order in
/// which the window system lists the windows.
pub fn collect_window_titles(windows: &Vec<WindowEntry>) -> (titles: HashMap<u32, String>)
    ensures
        forall|pid: u32|
            titles@.contains_key(pid) <==> has_titled_window(windows@, windows.len() as int, pid),
        forall|i: int|
            is_first_window_of_process(windows@, i) ==> titles@[(#[trigger] windows[i]).pid]
                == windows[i].title,
{
    broadcast use vstd::std_specs::hash::group_hash_axioms;

    let mut titles: HashMap<u32, String> = HashMap::new();
    let mut at: usize = 0;
    while at < windows.len()
        invariant
            at <= windows.len(),
            forall|pid: u32| titles@.contains_key(pid) <==> has_titled_window(windows@, at as int, pid),
            forall|i: int|
                i < at && is_first_window_of_process(windows@, i) ==> titles@[(
                #[trigger] windows[i]).pid] == windows[i].title,
        decreases windows.len() - at,
    {
        let window = &windows[at];
        let ghost before = titles@;
        let counts = window.visible && !window.title.as_str().is_empty() && window.pid != 0;
        if counts && !titles.contains_key(&window.pid) {
            titles.insert(window.pid, window.title.clone());
        }
        proof {
            assert forall|pid: u32| titles@.contains_key(pid) <==> has_titled_window(
                windows@,
                at + 1,
                pid,
            ) by {
                if has_titled_window(windows@, at + 1, pid) {
                    let i = choose|i: int|
                        0 <= i < at + 1 && titles_a_process(#[trigger] windows@[i])
                            && windows@[i].pid == pid;
                    if i < at {
                        assert(has_titled_window(windows@, at as int, pid));
                    }
                }
                if titles@.contains_key(pid) {
                    if before.contains_key(pid) {
                        let i = choose|i: int|
                            0 <= i < at && titles_a_process(#[trigger] windows@[i])
                                && windows@[i].pid == pid;
                        assert(0 <= i < at + 1);
                    } else {
                        assert(titles_a_process(windows@[at as int]));
                    }
                }
            }
            assert forall|i: int|
                i < at + 1 && is_first_window_of_process(windows@, i) implies titles@[(
            #[trigger] windows@[i]).pid] == windows@[i].title by {
                if i < at {
                    assert(has_titled_window(windows@, at as int, windows@[i].pid));
                    assert(before.contains_key(windows@[i].pid));
                } else {
                    assert(!has_titled_window(windows@, at as int, windows@[i].pid));
                }
            }
        }
        at += 1;
    }
    titles
}

} // verus!
