//! Application settings content: interface language and network settings.

use vstd::prelude::*;
use crate::connections::NetworkSettingsContent;
use crate::mining::texts;
use crate::text::{before_first, chars_of, push_char, same_text, split_once_char};

verus! {

/// User interface settings content.
pub struct InterfaceSettingsContent {
    /// Current locale.
    pub locale: String,
}

impl InterfaceSettingsContent {
    /// Content for the locale saved in the configuration, or else for the locale in use.
    pub fn new(saved: Option<String>, current: String) -> (r: Self)
        ensures
            r.locale@ == (match saved {
                Some(l) => l@,
                None => current@,
            }),
    {
        let locale = match saved {
            Some(l) => l,
            None => current,
        };
        InterfaceSettingsContent { locale }
    }

    /// Check if the locale is the current one.
    pub fn is_current(&self, locale: &str) -> (r: bool)
        ensures
            r == (self.locale@ == locale@),
    {
        same_text(self.locale.as_str(), locale)
    }

    /// A language item was clicked: another locale than the current one becomes current
    /// and `true` is returned, so that it is applied and saved; the current one changes
    /// nothing.
    pub fn on_locale_click(&mut self, locale: &str) -> (changed: bool)
        ensures
            changed == (old(self).locale@ != locale@),
            final(self).locale@ == locale@,
    {
        if self.is_current(locale) {
            false
        } else {
            self.locale = locale.to_owned();
            true
        }
    }
}

/// Application settings content.
pub struct SettingsContent {
    /// User interface settings.
    pub interface_settings: InterfaceSettingsContent,
    /// Network communication settings.
    pub network_settings: NetworkSettingsContent,
}

impl SettingsContent {
    /// Settings content for the saved and current locale, with network settings at
    /// their start.
    pub fn new(saved_locale: Option<String>, current_locale: String) -> (r: Self)
        ensures
            r.interface_settings.locale@ == (match saved_locale {
                Some(l) => l@,
                None => current_locale@,
            }),
            r.network_settings.proxy_url_edit@ == Seq::<char>::empty(),
            !r.network_settings.proxy_url_error,
    {
        SettingsContent {
            interface_settings: InterfaceSettingsContent::new(saved_locale, current_locale),
            network_settings: NetworkSettingsContent::default(),
        }
    }
}

/// Locale taken when the system gives none, or one without a region.
pub open spec fn default_locale() -> Seq<char> {
    seq!['e', 'n']
}

/// Locale to set at start from the locale of the system: the part before its first `-`,
/// the default locale when the system gives none or one without `-`; `None`, keeping the
/// locale in use, when that locale is not available.
pub open spec fn startup_locale_of(system: Option<Seq<char>>, available: Seq<Seq<char>>) -> Option<
    Seq<char>,
> {
    let locale = match system {
        Some(l) => l,
        None => default_locale(),
    };
    let part = if locale.contains('-') {
        before_first(locale, '-')
    } else {
        default_locale()
    };
    if available.contains(part) {
        Some(part)
    } else {
        None
    }
}

/// Text of an optional string.
pub open spec fn opt_text(o: Option<String>) -> Option<Seq<char>> {
    match o {
        Some(s) => Some(s@),
        None => None,
    }
}

/// Choose the locale to set at start from the locale of the system and the available
/// locales.
pub fn startup_locale(system: Option<String>, available: &Vec<String>) -> (r: Option<String>)
    ensures
        match r {
            Some(l) => startup_locale_of(opt_text(system), texts(available@)) == Some(l@),
            None => startup_locale_of(opt_text(system), texts(available@)) is None,
        },
{
    let mut en = String::new();
    push_char(&mut en, 'e');
    push_char(&mut en, 'n');
    assert(en@ =~= default_locale());
    let locale = match system {
        Some(l) => l,
        None => en.clone(),
    };
    let has_dash = {
        let cs = chars_of(locale.as_str());
        let mut found = false;
        let mut i: usize = 0;
        while i < cs.len()
            invariant
                cs@ == locale@,
                i <= cs@.len(),
                found == cs@.take(i as int).contains('-'),
            decreases cs@.len() - i,
        {
            proof {
                let a = cs@.take(i as int);
                let b = cs@.take(i + 1);
                assert(b =~= a.push(cs@[i as int]));
                if a.contains('-') {
                    let k = choose|k: int| 0 <= k < a.len() && a[k] == '-';
                    assert(b[k] == '-');
                }
                if cs@[i as int] == '-' {
                    assert(b[i as int] == '-');
                }
                if b.contains('-') {
                    let k = choose|k: int| 0 <= k < b.len() && b[k] == '-';
                    if k < i {
                        assert(a[k] == '-');
                    }
                }
            }
            if cs[i] == '-' {
                found = true;
            }
            i = i + 1;
        }
        assert(cs@.take(cs@.len() as int) =~= cs@);
        found
    };
    let ghost loc = locale@;
    assert(loc == match opt_text(system) {
        Some(l) => l,
        None => default_locale(),
    });
    let part = if has_dash {
        split_once_char(locale.as_str(), '-').0
    } else {
        en
    };
    assert(part@ == (if loc.contains('-') {
        before_first(loc, '-')
    } else {
        default_locale()
    }));
    let mut i: usize = 0;
    while i < available.len()
        invariant
            i <= available@.len(),
            forall|k: int| 0 <= k < i ==> available@[k]@ != part@,
            loc == match opt_text(system) {
                Some(l) => l,
                None => default_locale(),
            },
            part@ == (if loc.contains('-') {
                before_first(loc, '-')
            } else {
                default_locale()
            }),
        decreases available@.len() - i,
    {
        if same_text(available[i].as_str(), part.as_str()) {
            assert(texts(available@)[i as int] == part@);
            assert(texts(available@).contains(part@));
            return Some(part);
        }
        i = i + 1;
    }
    assert(!texts(available@).contains(part@)) by {
        if texts(available@).contains(part@) {
            let k = choose|k: int| 0 <= k < texts(available@).len() && texts(available@)[k] == part@;
            assert(available@[k]@ == part@);
        }
    }
    None
}

} // verus!
