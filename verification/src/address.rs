use vstd::prelude::*;
use vstd::string::*;

use crate::error::{BindError, ConfigError};

verus! {

/// The scheme prefix that marks a Unix domain socket address.
pub open spec fn unix_scheme() -> Seq<char> {
    "unix://"@
}

/// The scheme prefix that marks a TCP address.
pub open spec fn tcp_scheme() -> Seq<char> {
    "tcp://"@
}

/// `p` is a prefix of `s`.
pub open spec fn is_prefix_of(p: Seq<char>, s: Seq<char>) -> bool {
    p.len() <= s.len() && (forall|i: int| 0 <= i < p.len() ==> s[i] == p[i])
}

/// One listen address, classified by scheme, with the scheme stripped.
#[derive(Clone, Debug, PartialEq)]
pub enum ListenAddress {
    /// `tcp://host:port` — `addr` is the `host:port` remainder.
    Tcp { addr: String },
    /// `unix:///path` — `path` is the filesystem path remainder.
    Unix { path: String },
}

/// Mathematical model of [`ListenAddress`].
pub enum ListenAddressView {
    Tcp { addr: Seq<char> },
    Unix { path: Seq<char> },
}

impl View for ListenAddress {
    type V = ListenAddressView;

    open spec fn view(&self) -> ListenAddressView {
        match *self {
            ListenAddress::Tcp { ref addr } => ListenAddressView::Tcp { addr: addr@ },
            ListenAddress::Unix { ref path } => ListenAddressView::Unix { path: path@ },
        }
    }
}

/// What parsing an address must yield: the `unix://` remainder as a path,
/// else the `tcp://` remainder as a TCP endpoint, else a scheme error.
pub open spec fn parse_spec(host: Seq<char>) -> Result<ListenAddressView, ConfigError> {
    if is_prefix_of(unix_scheme(), host) {
        Ok(ListenAddressView::Unix { path: host.skip(unix_scheme().len() as int) })
    } else if is_prefix_of(tcp_scheme(), host) {
        Ok(ListenAddressView::Tcp { addr: host.skip(tcp_scheme().len() as int) })
    } else {
        Err(ConfigError::UnsupportedScheme)
    }
}

/// Whether `p` is a character-wise prefix of `s`.
fn str_has_prefix(s: &str, p: &str) -> (r: bool)
    ensures
        r == is_prefix_of(p@, s@),
{
    let pl = p.unicode_len();
    let sl = s.unicode_len();
    if pl > sl {
        return false;
    }
    let mut i: usize = 0;
    while i < pl
        invariant
            i <= pl,
            pl == p@.len(),
            sl == s@.len(),
            pl <= sl,
            forall|j: int| 0 <= j < i ==> s@[j] == p@[j],
        decreases pl - i,
    {
        if s.get_char(i) != p.get_char(i) {
            return false;
        }
        i += 1;
    }
    true
}

impl ListenAddress {
    /// Classifies one listen address by its scheme prefix, as
    /// [`parse_spec`] describes, stripping the prefix from the remainder.
    pub fn parse(host: &str) -> (r: Result<ListenAddress, BindError>)
        ensures
            (match r {
                Ok(a) => parse_spec(host@) is Ok && a@ == parse_spec(host@)->Ok_0,
                Err(e) => parse_spec(host@) is Err && e == BindError::Configuration(
                    parse_spec(host@)->Err_0,
                ),
            }),
    {
        if str_has_prefix(host, "unix://") {
            proof {
                reveal_strlit("unix://");
            }
            let n = host.unicode_len();
            let path = host.substring_char(7, n);
            Ok(ListenAddress::Unix { path: String::from_str(path) })
        } else if str_has_prefix(host, "tcp://") {
            proof {
                reveal_strlit("tcp://");
            }
            let n = host.unicode_len();
            let addr = host.substring_char(6, n);
            Ok(ListenAddress::Tcp { addr: String::from_str(addr) })
        } else {
            Err(BindError::Configuration(ConfigError::UnsupportedScheme))
        }
    }
}

} // verus!
