//! Decisions of the mining tab: which content it shows for the node and stratum server
//! state, the server address chosen among the addresses of the system, the address to
//! save, and the texts of the statistics it shows.

use vstd::prelude::*;
use crate::qr_image::{digits_of, push_digits};
use crate::text::{after_first, before_first, push_char, push_text, same_text, split_once_char};

verus! {

/// Content of the mining tab.
#[derive(PartialEq, Eq, Structural, Clone, Copy, Debug)]
pub enum MiningView {
    /// The integrated node is not running.
    Disabled,
    /// Waiting for the node statistics, its synchronization or the server start.
    Loading,
    /// The system has no IPv4 address to run the server on.
    NoAddresses,
    /// Stratum server setup.
    Setup,
    /// The server is starting.
    Starting,
    /// Server, network and miners statistics.
    Stats,
}

/// Content of the mining tab: without node statistics or while the node is not synced,
/// the disabled node content when it is not running and loading otherwise; then a note
/// when the system has no address; the server setup while the server neither runs nor
/// starts; a loading indicator while it starts; else the statistics.
pub open spec fn mining_view_of(
    has_stats: bool,
    synced: bool,
    node_running: bool,
    has_addresses: bool,
    stratum_running: bool,
    stratum_starting: bool,
) -> MiningView {
    if !has_stats || !synced {
        if !node_running {
            MiningView::Disabled
        } else {
            MiningView::Loading
        }
    } else if !has_addresses {
        MiningView::NoAddresses
    } else if !stratum_running && !stratum_starting {
        MiningView::Setup
    } else if stratum_starting {
        MiningView::Starting
    } else {
        MiningView::Stats
    }
}

/// Choose the content of the mining tab.
pub fn mining_view(
    has_stats: bool,
    synced: bool,
    node_running: bool,
    has_addresses: bool,
    stratum_running: bool,
    stratum_starting: bool,
) -> (r: MiningView)
    ensures
        r == mining_view_of(
            has_stats,
            synced,
            node_running,
            has_addresses,
            stratum_running,
            stratum_starting,
        ),
{
    if !has_stats || !synced {
        if !node_running {
            MiningView::Disabled
        } else {
            MiningView::Loading
        }
    } else if !has_addresses {
        MiningView::NoAddresses
    } else if !stratum_running && !stratum_starting {
        MiningView::Setup
    } else if stratum_starting {
        MiningView::Starting
    } else {
        MiningView::Stats
    }
}

/// Choose the content of the mining tab of the node tabs: loading while the server starts
/// or the node is not synced, the server setup while the server does not run, else the
/// statistics.
pub fn mining_tab_view(stratum_starting: bool, synced: bool, stratum_running: bool) -> (r: MiningView)
    ensures
        r == (if stratum_starting || !synced {
            MiningView::Loading
        } else if !stratum_running {
            MiningView::Setup
        } else {
            MiningView::Stats
        }),
{
    if stratum_starting || !synced {
        MiningView::Loading
    } else if !stratum_running {
        MiningView::Setup
    } else {
        MiningView::Stats
    }
}

/// Texts of a sequence of strings.
pub open spec fn texts(v: Seq<String>) -> Seq<Seq<char>> {
    v.map_values(|s: String| s@)
}

/// Keep the IPv4 addresses of the network interfaces of the system, in order; each
/// address comes with whether it is an IPv4 one.
pub fn ipv4_addresses(ips: &Vec<(String, bool)>) -> (r: Vec<String>)
    ensures
        texts(r@) == ips@.filter(|ip: (String, bool)| ip.1).map_values(|ip: (String, bool)| ip.0@),
{
    let mut r: Vec<String> = Vec::new();
    let mut i: usize = 0;
    while i < ips.len()
        invariant
            i <= ips@.len(),
            texts(r@) == ips@.take(i as int).filter(|ip: (String, bool)| ip.1).map_values(
                |ip: (String, bool)| ip.0@,
            ),
        decreases ips@.len() - i,
    {
        let ghost before = texts(r@);
        assert(ips@.take(i + 1).drop_last() =~= ips@.take(i as int));
        reveal(Seq::filter);
        if ips[i].1 {
            r.push(ips[i].0.clone());
            assert(texts(r@) =~= before.push(ips@[i as int].0@));
        }
        i = i + 1;
    }
    assert(ips@.take(ips@.len() as int) =~= ips@);
    r
}

/// Address of the stratum server to select: the saved one when the system has it, else
/// the first address of the system; `None` when the system has none.
pub open spec fn stratum_ip_of(addresses: Seq<Seq<char>>, saved: Seq<char>) -> Option<Seq<char>> {
    if addresses.len() == 0 {
        None
    } else if addresses.contains(saved) {
        Some(saved)
    } else {
        Some(addresses[0])
    }
}

/// Select the address of the stratum server among the addresses of the system.
pub fn stratum_ip(addresses: &Vec<String>, saved: &str) -> (r: Option<String>)
    ensures
        match r {
            Some(ip) => stratum_ip_of(texts(addresses@), saved@) == Some(ip@),
            None => stratum_ip_of(texts(addresses@), saved@) is None,
        },
{
    if addresses.len() == 0 {
        return None;
    }
    let mut i: usize = 0;
    while i < addresses.len()
        invariant
            i <= addresses@.len(),
            forall|k: int| 0 <= k < i ==> addresses@[k]@ != saved@,
        decreases addresses@.len() - i,
    {
        if same_text(addresses[i].as_str(), saved) {
            assert(texts(addresses@)[i as int] == saved@);
            return Some(addresses[i].clone());
        }
        i = i + 1;
    }
    assert(!texts(addresses@).contains(saved@)) by {
        if texts(addresses@).contains(saved@) {
            let k = choose|k: int| 0 <= k < texts(addresses@).len() && texts(addresses@)[k] == saved@;
            assert(addresses@[k]@ == saved@);
        }
    }
    Some(addresses[0].clone())
}

/// Split a saved server address into its host and its port at the first `:`.
pub fn split_address(saved: &str) -> (r: (String, String))
    requires
        saved@.contains(':'),
    ensures
        r.0@ == before_first(saved@, ':'),
        r.1@ == after_first(saved@, ':'),
        r.0@ + seq![':'] + r.1@ == saved@,
        !r.0@.contains(':'),
{
    split_once_char(saved, ':')
}

/// Server address to save after an address was selected: `None` when it is the saved
/// one, else the selected address and the port joined by `:`.
pub open spec fn stratum_addr_change_of(selected: Seq<char>, saved: Seq<char>, port: Seq<char>) -> Option<
    Seq<char>,
> {
    if selected == saved {
        None
    } else {
        Some(selected + seq![':'] + port)
    }
}

/// Server address to save after an address was selected at the setup.
pub fn stratum_addr_change(selected: &str, saved: &str, port: &str) -> (r: Option<String>)
    ensures
        match r {
            Some(a) => stratum_addr_change_of(selected@, saved@, port@) == Some(a@),
            None => stratum_addr_change_of(selected@, saved@, port@) is None,
        },
{
    if same_text(selected, saved) {
        return None;
    }
    let mut a = String::new();
    push_text(&mut a, selected);
    push_char(&mut a, ':');
    push_text(&mut a, port);
    assert(a@ =~= selected@ + seq![':'] + port@);
    Some(a)
}

/// Text of a statistic: its decimal digits when it is above zero, else `-`.
pub open spec fn count_text_of(n: nat) -> Seq<char> {
    if n > 0 {
        digits_of(n)
    } else {
        seq!['-']
    }
}

/// Text of a statistic of the mining tab.
pub fn count_text(n: u64) -> (r: String)
    ensures
        r@ == count_text_of(n as nat),
{
    let mut s = String::new();
    if n > 0 {
        push_digits(&mut s, n);
    } else {
        push_char(&mut s, '-');
    }
    assert(s@ =~= count_text_of(n as nat));
    s
}

/// Text of a transaction pool: its size and its kernels as `size (kernels)`, `0 (0)`
/// without pool statistics.
pub open spec fn pool_text_of(pool: Option<(u64, u64)>) -> Seq<char> {
    let (size, kernels) = match pool {
        Some(p) => p,
        None => (0u64, 0u64),
    };
    digits_of(size as nat) + seq![' ', '('] + digits_of(kernels as nat) + seq![')']
}

/// Text of a transaction pool of the node tab.
pub fn pool_text(pool: Option<(u64, u64)>) -> (r: String)
    ensures
        r@ == pool_text_of(pool),
{
    let (size, kernels) = match pool {
        Some(p) => p,
        None => (0u64, 0u64),
    };
    let mut s = String::new();
    push_digits(&mut s, size);
    push_char(&mut s, ' ');
    push_char(&mut s, '(');
    push_digits(&mut s, kernels);
    push_char(&mut s, ')');
    assert(s@ =~= pool_text_of(pool));
    s
}

/// Rounded corners of an item of the peers list, top and bottom: the first item has its
/// top corners rounded, the last one its bottom corners, the others none.
pub fn peer_rounding(index: usize, count: usize) -> (r: (bool, bool))
    requires
        index < count,
    ensures
        r == (if index == 0 {
            (true, false)
        } else if index == count - 1 {
            (false, true)
        } else {
            (false, false)
        }),
{
    if index == 0 {
        (true, false)
    } else if index == count - 1 {
        (false, true)
    } else {
        (false, false)
    }
}

/// Rounded corners of an item of the workers list, top and bottom: a single item has
/// both rounded, else the first item its top corners, the last one its bottom corners, the
/// others none.
pub fn workers_rounding(index: usize, count: usize) -> (r: (bool, bool))
    requires
        index < count,
    ensures
        r == (if count == 1 {
            (true, true)
        } else if index == 0 {
            (true, false)
        } else if index == count - 1 {
            (false, true)
        } else {
            (false, false)
        }),
{
    if count == 1 {
        (true, true)
    } else if index == 0 {
        (true, false)
    } else if index == count - 1 {
        (false, true)
    } else {
        (false, false)
    }
}

/// Whether the mining statistics list the workers: some worker statistics and some
/// connected workers; otherwise a note on mining is shown.
pub fn workers_shown(worker_stats: usize, num_workers: usize) -> (r: bool)
    ensures
        r == (worker_stats != 0 && num_workers > 0),
{
    worker_stats != 0 && num_workers > 0
}

} // verus!
