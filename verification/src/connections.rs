//! Entered connection addresses: proxy URLs and external node connections.

use vstd::prelude::*;
use crate::modal::{Modal, ModalState};
use crate::setup::after_save;
use crate::text::{
    chars_of, contains, has_infix, has_prefix, replace, replace_all, same_text, starts_with,
    string_from_chars, trim, trim_chars,
};

verus! {

/// What `url::Url::parse` decides of a text: whether it parses as a URL. The URL
/// grammar is not restated: the result depends on the text alone.
pub uninterp spec fn url_parses(s: Seq<char>) -> bool;

/// Check if a text parses as a URL (`url::Url::parse`).
#[verifier::external_body]
fn url_is_valid(s: &str) -> (r: bool)
    ensures
        r == url_parses(s@),
{
    url::Url::parse(s).is_ok()
}

pub open spec fn http_scheme() -> Seq<char> {
    seq!['h', 't', 't', 'p', ':', '/', '/']
}

pub open spec fn socks_scheme() -> Seq<char> {
    seq!['s', 'o', 'c', 'k', 's', '5', ':', '/', '/']
}

/// Proxy URL for an entered address: the other scheme is removed, and the scheme of
/// the proxy type is added in front when the address does not hold it.
pub open spec fn proxy_url_for(proxy: Seq<char>, use_socks: bool) -> Seq<char> {
    if use_socks {
        let p = replace_all(proxy, http_scheme(), Seq::empty());
        if !has_infix(p, socks_scheme()) {
            socks_scheme() + p
        } else {
            p
        }
    } else {
        let p = replace_all(proxy, socks_scheme(), Seq::empty());
        if !has_infix(p, http_scheme()) {
            http_scheme() + p
        } else {
            p
        }
    }
}

/// A formatted proxy URL names the scheme of its proxy type.
pub proof fn law_proxy_url_names_scheme(proxy: Seq<char>, use_socks: bool)
    ensures
        use_socks ==> has_infix(proxy_url_for(proxy, use_socks), socks_scheme()),
        !use_socks ==> has_infix(proxy_url_for(proxy, use_socks), http_scheme()),
{
    let url = proxy_url_for(proxy, use_socks);
    let scheme = if use_socks {
        socks_scheme()
    } else {
        http_scheme()
    };
    let p = if use_socks {
        replace_all(proxy, http_scheme(), Seq::empty())
    } else {
        replace_all(proxy, socks_scheme(), Seq::empty())
    };
    if !has_infix(p, scheme) {
        assert(url.subrange(0, scheme.len() as int) =~= scheme);
        assert(crate::text::occurs_at(url, scheme, 0));
    }
}

fn http_chars() -> (r: Vec<char>)
    ensures
        r@ == http_scheme(),
{
    let r = vec!['h', 't', 't', 'p', ':', '/', '/'];
    assert(r@ =~= http_scheme());
    r
}

fn socks_chars() -> (r: Vec<char>)
    ensures
        r@ == socks_scheme(),
{
    let r = vec!['s', 'o', 'c', 'k', 's', '5', ':', '/', '/'];
    assert(r@ =~= socks_scheme());
    r
}

fn concat(a: &[char], b: &[char]) -> (r: Vec<char>)
    ensures
        r@ == a@ + b@,
{
    let mut r: Vec<char> = Vec::new();
    let mut i: usize = 0;
    while i < a.len()
        invariant
            i <= a@.len(),
            r@ == a@.take(i as int),
        decreases a@.len() - i,
    {
        r.push(a[i]);
        i = i + 1;
        assert(r@ =~= a@.take(i as int));
    }
    let mut j: usize = 0;
    while j < b.len()
        invariant
            i == a@.len(),
            j <= b@.len(),
            r@ == a@ + b@.take(j as int),
        decreases b@.len() - j,
    {
        r.push(b[j]);
        j = j + 1;
        assert(r@ =~= a@ + b@.take(j as int));
    }
    assert(a@.take(a@.len() as int) =~= a@);
    assert(b@.take(b@.len() as int) =~= b@);
    r
}

/// Format the proxy URL of an entered address for the proxy type.
pub fn format_proxy_url(proxy: &[char], use_socks: bool) -> (r: Vec<char>)
    ensures
        r@ == proxy_url_for(proxy@, use_socks),
{
    let http = http_chars();
    let socks = socks_chars();
    let empty: Vec<char> = Vec::new();
    if use_socks {
        let p = replace(proxy, http.as_slice(), empty.as_slice());
        if !contains(p.as_slice(), socks.as_slice()) {
            concat(socks.as_slice(), p.as_slice())
        } else {
            p
        }
    } else {
        let p = replace(proxy, socks.as_slice(), empty.as_slice());
        if !contains(p.as_slice(), http.as_slice()) {
            concat(http.as_slice(), p.as_slice())
        } else {
            p
        }
    }
}

/// Proxy change requested by saving the proxy edit modal.
pub enum ProxyChange {
    /// The entered address is empty: remove the proxy URL of the type.
    Clear,
    /// Save the proxy URL (and enable proxy usage).
    Save(String),
    /// The URL is not valid.
    Invalid,
}

/// Network communication settings content.
pub struct NetworkSettingsContent {
    /// Proxy URL input value for [`Modal`].
    pub proxy_url_edit: String,
    /// Flag to check if entered proxy address was correct.
    pub proxy_url_error: bool,
}

impl Default for NetworkSettingsContent {
    /// Content with empty entered address.
    fn default() -> (c: Self)
        ensures
            c.proxy_url_edit@ == Seq::<char>::empty(),
            !c.proxy_url_error,
    {
        NetworkSettingsContent { proxy_url_edit: String::new(), proxy_url_error: false }
    }
}

impl NetworkSettingsContent {
    /// Identifier for proxy URL edit [`Modal`].
    pub const PROXY_URL_EDIT_MODAL: &'static str = "settings_proxy_edit_modal";

    /// Save the entered proxy address for the proxy type: an empty address clears the
    /// saved URL; otherwise the formatted URL is saved when it parses, and the error flag
    /// is set when it does not. The modal closes unless the URL is not valid.
    pub fn on_proxy_save(&mut self, use_socks: bool, state: &mut ModalState) -> (r: ProxyChange)
        ensures
            ({
                let proxy = trim(old(self).proxy_url_edit@);
                let url = proxy_url_for(proxy, use_socks);
                if proxy.len() == 0 {
                    &&& r is Clear
                    &&& final(self).proxy_url_error == old(self).proxy_url_error
                    &&& final(state).modal is None
                } else if url_parses(url) {
                    &&& r matches ProxyChange::Save(u) && u@ == url
                    &&& !final(self).proxy_url_error
                    &&& final(state).modal is None
                } else {
                    &&& r is Invalid
                    &&& final(self).proxy_url_error
                    &&& *final(state) == *old(state)
                }
            }),
            final(self).proxy_url_edit == old(self).proxy_url_edit,
    {
        let edit = chars_of(self.proxy_url_edit.as_str());
        let proxy = trim_chars(edit.as_slice());
        if proxy.len() == 0 {
            Modal::close(state);
            return ProxyChange::Clear;
        }
        let url = string_from_chars(format_proxy_url(proxy.as_slice(), use_socks).as_slice());
        let error = !url_is_valid(url.as_str());
        self.proxy_url_error = error;
        if !error {
            Modal::close(state);
            ProxyChange::Save(url)
        } else {
            ProxyChange::Invalid
        }
    }
}

/// Tor proxy with its URL.
pub enum TorProxy {
    SOCKS5(String),
    HTTP(String),
}

/// Tor settings content.
pub struct TorSettingsContent {
    /// Proxy URL input value for [`Modal`].
    pub proxy_url_edit: String,
    /// Flag to check if entered proxy address was correct.
    pub proxy_url_error: bool,
}

impl TorSettingsContent {
    /// Save the entered proxy URL: when it parses, it becomes a SOCKS5 proxy when it holds
    /// `socks5://`, an HTTP proxy when it holds `http://`, and otherwise a proxy of the type
    /// of the saved one (`current_socks`); the modal then closes.
    pub fn on_proxy_save(&mut self, current_socks: bool, state: &mut ModalState) -> (r: Option<
        TorProxy,
    >)
        ensures
            ({
                let url = trim(old(self).proxy_url_edit@);
                &&& final(self).proxy_url_error == !url_parses(url)
                &&& match r {
                    Some(TorProxy::SOCKS5(u)) => url_parses(url) && u@ == url && (has_infix(
                        url,
                        socks_scheme(),
                    ) || (!has_infix(url, http_scheme()) && current_socks)),
                    Some(TorProxy::HTTP(u)) => url_parses(url) && u@ == url && !has_infix(
                        url,
                        socks_scheme(),
                    ) && (has_infix(url, http_scheme()) || !current_socks),
                    None => !url_parses(url),
                }
            }),
            after_save(r is Some, *old(state), *final(state)),
            final(self).proxy_url_edit == old(self).proxy_url_edit,
    {
        let edit = chars_of(self.proxy_url_edit.as_str());
        let url_chars = trim_chars(edit.as_slice());
        let url = string_from_chars(url_chars.as_slice());
        let error = !url_is_valid(url.as_str());
        self.proxy_url_error = error;
        if error {
            return None;
        }
        let socks = socks_chars();
        let http = http_chars();
        let r = if contains(url_chars.as_slice(), socks.as_slice()) {
            TorProxy::SOCKS5(url)
        } else if contains(url_chars.as_slice(), http.as_slice()) {
            TorProxy::HTTP(url)
        } else if current_socks {
            TorProxy::SOCKS5(url)
        } else {
            TorProxy::HTTP(url)
        };
        Modal::close(state);
        Some(r)
    }
}

/// Details of an external connection entered at its modal.
pub struct ConnectionDetails {
    /// Node URL.
    pub url: String,
    /// User name.
    pub username: Option<String>,
    /// API secret.
    pub secret: Option<String>,
    /// Identifier of the updated connection.
    pub id: Option<i64>,
}

impl ConnectionDetails {
    /// The details hold the given URL and connection identifier; an empty secret gives the
    /// user name `grin` and no secret, another secret stands as both user name and secret.
    pub open spec fn describes(self, url: Seq<char>, secret: Seq<char>, id: Option<i64>) -> bool {
        &&& self.url@ == url
        &&& self.id == id
        &&& if secret.len() == 0 {
            &&& self.secret is None
            &&& self.username is Some
            &&& self.username->0@ == seq!['g', 'r', 'i', 'n']
        } else {
            &&& self.secret is Some
            &&& self.secret->0@ == secret
            &&& self.username is Some
            &&& self.username->0@ == secret
        }
    }
}

/// Content to create or update external wallet connection.
pub struct ExternalConnectionModal {
    /// Flag to check if content was just rendered.
    pub first_draw: bool,
    /// Editing external connection identifier.
    pub id: Option<i64>,
    /// External connection URL.
    pub url_edit: String,
    /// Flag to show URL format error.
    pub url_error: bool,
    /// External connection API secret.
    pub secret_edit: String,
}

pub open spec fn https_scheme() -> Seq<char> {
    seq!['h', 't', 't', 'p', 's', ':', '/', '/']
}

/// Node URL for an entered address: `https://` is added in front unless it starts with `http`.
pub open spec fn node_url_for(entered: Seq<char>) -> Seq<char> {
    if !has_prefix(entered, seq!['h', 't', 't', 'p']) {
        https_scheme() + entered
    } else {
        entered
    }
}

impl ExternalConnectionModal {
    /// Network [`Modal`] identifier.
    pub const NETWORK_ID: &'static str = "net_ext_conn_modal";
    /// Wallet [`Modal`] identifier.
    pub const WALLET_ID: &'static str = "wallet_ext_conn_modal";

    /// Create new instance from optional provided connection (URL, secret, identifier) to update.
    pub fn new(conn: Option<(String, Option<String>, i64)>) -> (m: Self)
        ensures
            m.first_draw,
            !m.url_error,
            match conn {
                Some((url, secret, id)) => {
                    &&& m.url_edit == url
                    &&& m.id == Some(id)
                    &&& match secret {
                        Some(s) => m.secret_edit == s,
                        None => m.secret_edit@ == Seq::<char>::empty(),
                    }
                },
                None => m.url_edit@ == Seq::<char>::empty() && m.secret_edit@ == Seq::<
                    char,
                >::empty() && m.id is None,
            },
    {
        let (url_edit, secret_edit, id) = match conn {
            Some((url, secret, id)) => {
                let s = match secret {
                    Some(s) => s,
                    None => String::new(),
                };
                (url, s, Some(id))
            },
            None => (String::new(), String::new(), None),
        };
        ExternalConnectionModal { first_draw: true, url_edit, url_error: false, secret_edit, id }
    }

    /// Add the entered connection: the node URL gets `https://` in front unless it starts
    /// with `http`; it is accepted when it parses (trimmed) as a URL. An accepted connection
    /// takes the entered secret as user name and as secret (`grin` and none for an empty
    /// secret) and the identifier of the updated connection; the fields are then cleared
    /// and the modal closes. A rejected URL sets the error flag.
    pub fn on_add(&mut self, state: &mut ModalState) -> (r: Option<ConnectionDetails>)
        ensures
            ({
                let url = node_url_for(old(self).url_edit@);
                let secret = old(self).secret_edit@;
                if url_parses(trim(url)) {
                    &&& r is Some
                    &&& r->0.describes(url, secret, old(self).id)
                    &&& final(self).url_edit@ == Seq::<char>::empty()
                    &&& final(self).secret_edit@ == Seq::<char>::empty()
                    &&& !final(self).url_error
                    &&& final(state).modal is None
                } else {
                    &&& r is None
                    &&& final(self).url_error
                    &&& final(self).url_edit == old(self).url_edit
                    &&& final(self).secret_edit == old(self).secret_edit
                    &&& *final(state) == *old(state)
                }
            }),
            final(self).id == old(self).id,
            final(self).first_draw == old(self).first_draw,
    {
        let entered = chars_of(self.url_edit.as_str());
        let http = vec!['h', 't', 't', 'p'];
        assert(http@ =~= seq!['h', 't', 't', 'p']);
        let url_chars = if !starts_with(entered.as_slice(), http.as_slice()) {
            let https = vec!['h', 't', 't', 'p', 's', ':', '/', '/'];
            assert(https@ =~= https_scheme());
            concat(https.as_slice(), entered.as_slice())
        } else {
            entered
        };
        assert(url_chars@ == node_url_for(old(self).url_edit@));
        let trimmed = string_from_chars(trim_chars(url_chars.as_slice()).as_slice());
        let error = !url_is_valid(trimmed.as_str());
        self.url_error = error;
        if error {
            return None;
        }
        let url = string_from_chars(url_chars.as_slice());
        let (username, secret) = if self.secret_edit.as_str().is_empty() {
            proof {
                reveal_strlit("grin");
            }
            let grin = "grin".to_owned();
            assert(grin@ =~= seq!['g', 'r', 'i', 'n']);
            (Some(grin), None)
        } else {
            (Some(self.secret_edit.clone()), Some(self.secret_edit.clone()))
        };
        let c = ConnectionDetails { url, username, secret, id: self.id };
        self.url_edit = String::new();
        self.secret_edit = String::new();
        self.url_error = false;
        Modal::close(state);
        Some(c)
    }
}

/// Whether two proxy settings are the same: both the default connection, or proxies of
/// one type with one URL.
pub open spec fn same_proxy_of(a: Option<TorProxy>, b: Option<TorProxy>) -> bool {
    match (a, b) {
        (None, None) => true,
        (Some(TorProxy::SOCKS5(x)), Some(TorProxy::SOCKS5(y))) => x@ == y@,
        (Some(TorProxy::HTTP(x)), Some(TorProxy::HTTP(y))) => x@ == y@,
        _ => false,
    }
}

/// Check whether two proxy settings are the same.
pub fn same_proxy(a: &Option<TorProxy>, b: &Option<TorProxy>) -> (r: bool)
    ensures
        r == same_proxy_of(*a, *b),
{
    match (a, b) {
        (None, None) => true,
        (Some(TorProxy::SOCKS5(x)), Some(TorProxy::SOCKS5(y))) => same_text(x.as_str(), y.as_str()),
        (Some(TorProxy::HTTP(x)), Some(TorProxy::HTTP(y))) => same_text(x.as_str(), y.as_str()),
        _ => false,
    }
}

/// Copy of a proxy setting.
pub fn copy_proxy(p: &Option<TorProxy>) -> (r: Option<TorProxy>)
    ensures
        same_proxy_of(r, *p),
{
    match p {
        None => None,
        Some(TorProxy::SOCKS5(x)) => Some(TorProxy::SOCKS5(x.clone())),
        Some(TorProxy::HTTP(x)) => Some(TorProxy::HTTP(x.clone())),
    }
}

/// Choice at the Tor connection method settings.
#[derive(PartialEq, Eq, Structural, Clone, Copy, Debug)]
pub enum ProxyChoice {
    /// Nothing was clicked.
    Kept,
    /// The default connection, without proxy.
    Default,
    /// A proxy: the saved one, or a SOCKS5 proxy at the default URL.
    Proxy,
    /// The saved SOCKS5 proxy, shown while a proxy is set.
    Socks5,
    /// The saved HTTP proxy, shown while a proxy is set.
    Http,
}

/// Proxy setting after a choice at the Tor settings, and whether it is to be saved: only
/// when it changed. The default connection has no proxy; the proxy choice keeps a set
/// proxy and otherwise takes a SOCKS5 proxy at the default URL; the SOCKS5 and HTTP
/// choices, offered while a proxy is set, take the saved proxy of their type.
pub fn proxy_after_toggle(
    current: &Option<TorProxy>,
    choice: ProxyChoice,
    default_socks5: &str,
    socks5: &TorProxy,
    http: &TorProxy,
) -> (r: (Option<TorProxy>, bool))
    ensures
        match choice {
            ProxyChoice::Kept => same_proxy_of(r.0, *current),
            ProxyChoice::Default => r.0 is None,
            ProxyChoice::Proxy => if current is Some {
                same_proxy_of(r.0, *current)
            } else {
                r.0 matches Some(TorProxy::SOCKS5(u)) && u@ == default_socks5@
            },
            ProxyChoice::Socks5 => if current is Some {
                same_proxy_of(r.0, Some(*socks5))
            } else {
                same_proxy_of(r.0, *current)
            },
            ProxyChoice::Http => if current is Some {
                same_proxy_of(r.0, Some(*http))
            } else {
                same_proxy_of(r.0, *current)
            },
        },
        r.1 == !same_proxy_of(r.0, *current),
{
    let next = match choice {
        ProxyChoice::Kept => copy_proxy(current),
        ProxyChoice::Default => None,
        ProxyChoice::Proxy => if current.is_some() {
            copy_proxy(current)
        } else {
            Some(TorProxy::SOCKS5(default_socks5.to_string()))
        },
        ProxyChoice::Socks5 => if current.is_some() {
            copy_proxy(&Some(copy_one(socks5)))
        } else {
            copy_proxy(current)
        },
        ProxyChoice::Http => if current.is_some() {
            copy_proxy(&Some(copy_one(http)))
        } else {
            copy_proxy(current)
        },
    };
    let save = !same_proxy(&next, current);
    (next, save)
}

/// Copy of a proxy.
fn copy_one(p: &TorProxy) -> (r: TorProxy)
    ensures
        same_proxy_of(Some(r), Some(*p)),
{
    match p {
        TorProxy::SOCKS5(x) => TorProxy::SOCKS5(x.clone()),
        TorProxy::HTTP(x) => TorProxy::HTTP(x.clone()),
    }
}

/// Bridge protocol of Tor.
#[derive(PartialEq, Eq, Structural, Clone, Copy, Debug)]
pub enum BridgeKind {
    Webtunnel,
    Obfs4,
    Snowflake,
}

/// Bridge after the bridges checkbox was clicked: none when one was set, else the
/// default Webtunnel bridge; the new value is always saved.
pub fn bridge_after_toggle(current: Option<BridgeKind>) -> (r: Option<BridgeKind>)
    ensures
        r == (if current is Some {
            None
        } else {
            Some(BridgeKind::Webtunnel)
        }),
{
    match current {
        Some(_) => None,
        None => Some(BridgeKind::Webtunnel),
    }
}

/// Bridge to save after a bridge protocol was picked: `None` when it is the set one.
pub fn bridge_after_pick(current: BridgeKind, picked: BridgeKind) -> (r: Option<BridgeKind>)
    ensures
        r == (if picked == current {
            None
        } else {
            Some(picked)
        }),
{
    if picked == current {
        None
    } else {
        Some(picked)
    }
}

impl ExternalConnectionModal {
    /// Take the result of scanning a shared connection, read as its URL, user name and
    /// secret when it was one: the modal can be closed again, and a shared connection is
    /// added as a new connection with those details while the modal closes; other data
    /// leaves the modal open.
    pub fn on_shared_scan(
        &self,
        shared: Option<(String, String, String)>,
        state: &mut ModalState,
    ) -> (r: Option<ConnectionDetails>)
        ensures
            match shared {
                Some((url, user, secret)) => {
                    &&& r matches Some(c) && c.url == url && c.username == Some(user) && c.secret
                        == Some(secret) && c.id is None
                    &&& final(state).modal is None
                },
                None => {
                    &&& r is None
                    &&& match old(state).modal {
                        Some(m) => final(state).modal matches Some(n) && n.closeable && n.id
                            == m.id && n.position == m.position && n.title == m.title
                            && n.first_draw == m.first_draw,
                        None => final(state).modal is None,
                    }
                },
            },
    {
        Modal::enable_shown_closing(state);
        match shared {
            Some((url, user, secret)) => {
                Modal::close(state);
                Some(ConnectionDetails { url, username: Some(user), secret: Some(secret), id: None })
            },
            None => None,
        }
    }
}

/// An entered node address that starts with `http` (so also `http://` and `https://`)
/// is the node URL as entered; any other address gets `https://` in front.
pub proof fn law_node_url(entered: Seq<char>)
    ensures
        entered.len() >= 4 && entered.take(4) == seq!['h', 't', 't', 'p'] ==> node_url_for(entered)
            == entered,
        !(entered.len() >= 4 && entered.take(4) == seq!['h', 't', 't', 'p']) ==> node_url_for(entered)
            == seq!['h', 't', 't', 'p', 's', ':', '/', '/'] + entered,
{
    if entered.len() >= 4 && entered.take(4) == seq!['h', 't', 't', 'p'] {
        assert(entered.subrange(0, 4) =~= entered.take(4));
    } else if entered.len() >= 4 {
        assert(entered.subrange(0, 4) =~= entered.take(4));
    }
}

} // verus!
