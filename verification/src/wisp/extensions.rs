use vstd::prelude::*;

use crate::support::payload::{bytes_copy_from_slice, bytes_seq};
use crate::wisp::packet::le_u32_at;

verus! {

/// The Wisp protocol extensions that this server knows.
#[derive(Debug, Clone, Copy, PartialEq, Eq, Structural)]
pub enum Extension {
    Udp,
    PasswordAuth,
    KeyAuth,
    Motd,
    StreamOpenConfirmation,
}

/// The extension that an extension id names, if any.
pub open spec fn extension_of(id: u8) -> Option<Extension> {
    if id == 1 {
        Some(Extension::Udp)
    } else if id == 2 {
        Some(Extension::PasswordAuth)
    } else if id == 3 {
        Some(Extension::KeyAuth)
    } else if id == 4 {
        Some(Extension::Motd)
    } else if id == 5 {
        Some(Extension::StreamOpenConfirmation)
    } else {
        None
    }
}

impl Extension {
    /// The id of this extension on the wire.
    pub open spec fn id(self) -> u8 {
        match self {
            Extension::Udp => 1,
            Extension::PasswordAuth => 2,
            Extension::KeyAuth => 3,
            Extension::Motd => 4,
            Extension::StreamOpenConfirmation => 5,
        }
    }

    pub fn from_u8(id: u8) -> (r: Option<Self>)
        ensures
            r == extension_of(id),
    {
        match id {
            1 => Some(Extension::Udp),
            2 => Some(Extension::PasswordAuth),
            3 => Some(Extension::KeyAuth),
            4 => Some(Extension::Motd),
            5 => Some(Extension::StreamOpenConfirmation),
            _ => None,
        }
    }

    /// The id of this extension on the wire.
    pub fn to_u8(self) -> (r: u8)
        ensures
            r == self.id(),
    {
        match self {
            Extension::Udp => 1,
            Extension::PasswordAuth => 2,
            Extension::KeyAuth => 3,
            Extension::Motd => 4,
            Extension::StreamOpenConfirmation => 5,
        }
    }
}

/// The extensions of `server`, in `server`'s order, that `client` also lists.
pub open spec fn common_extensions(server: Seq<Extension>, client: Seq<Extension>) -> Seq<Extension>
    decreases server.len(),
{
    if server.len() == 0 {
        Seq::empty()
    } else {
        let rest = common_extensions(server.drop_last(), client);
        if client.contains(server.last()) {
            rest.push(server.last())
        } else {
            rest
        }
    }
}

/// The ids of a list of extensions, in order.
pub open spec fn extension_ids(exts: Seq<Extension>) -> Seq<u8> {
    exts.map_values(|e: Extension| e.id())
}

/// The outcome of comparing the server's and the client's extensions.
#[derive(Debug, Clone)]
pub struct ExtensionNegotiation {
    pub server_supported: Vec<Extension>,
    pub client_supported: Vec<Extension>,
    pub agreed: Vec<Extension>,
}

/// Whether `e` occurs in `s`.
fn contains_extension(s: &[Extension], e: Extension) -> (r: bool)
    ensures
        r == s@.contains(e),
{
    let mut i: usize = 0;
    while i < s.len()
        invariant
            i <= s@.len(),
            forall|j: int| 0 <= j < i ==> s@[j] != e,
        decreases s@.len() - i,
    {
        if s[i] == e {
            assert(s@[i as int] == e);
            return true;
        }
        i = i + 1;
    }
    false
}

/// Copies a slice of extensions into a vector.
fn extensions_to_vec(s: &[Extension]) -> (r: Vec<Extension>)
    ensures
        r@ == s@,
{
    let mut v: Vec<Extension> = Vec::new();
    let mut i: usize = 0;
    while i < s.len()
        invariant
            i <= s@.len(),
            v@ == s@.subrange(0, i as int),
        decreases s@.len() - i,
    {
        v.push(s[i]);
        i = i + 1;
        assert(v@ == s@.subrange(0, i as int));
    }
    assert(s@.subrange(0, s@.len() as int) == s@);
    v
}

impl ExtensionNegotiation {
    pub fn negotiate(server: &[Extension], client: &[Extension]) -> (r: Self)
        ensures
            r.server_supported@ == server@,
            r.client_supported@ == client@,
            r.agreed@ == common_extensions(server@, client@),
    {
        let mut agreed: Vec<Extension> = Vec::new();
        let mut i: usize = 0;
        while i < server.len()
            invariant
                i <= server@.len(),
                agreed@ == common_extensions(server@.subrange(0, i as int), client@),
            decreases server@.len() - i,
        {
            let e = server[i];
            assert(server@.subrange(0, i + 1).drop_last() == server@.subrange(0, i as int));
            if contains_extension(client, e) {
                agreed.push(e);
            }
            i = i + 1;
        }
        assert(server@.subrange(0, server@.len() as int) == server@);
        ExtensionNegotiation {
            server_supported: extensions_to_vec(server),
            client_supported: extensions_to_vec(client),
            agreed,
        }
    }

    pub fn has(&self, ext: Extension) -> (r: bool)
        ensures
            r == self.agreed@.contains(ext),
    {
        contains_extension(self.agreed.as_slice(), ext)
    }

    pub fn agreed_ids(&self) -> (r: Vec<u8>)
        ensures
            r@ == extension_ids(self.agreed@),
    {
        let mut ids: Vec<u8> = Vec::new();
        let mut i: usize = 0;
        while i < self.agreed.len()
            invariant
                i <= self.agreed@.len(),
                ids@ == extension_ids(self.agreed@.subrange(0, i as int)),
            decreases self.agreed@.len() - i,
        {
            ids.push(self.agreed[i].to_u8());
            i = i + 1;
            assert(ids@ =~= extension_ids(self.agreed@.subrange(0, i as int)));
        }
        assert(self.agreed@.subrange(0, self.agreed@.len() as int) == self.agreed@);
        ids
    }
}

/// An extension may be used exactly when both sides list it.
pub proof fn lemma_common_extensions_contains(server: Seq<Extension>, client: Seq<Extension>, e: Extension)
    ensures
        common_extensions(server, client).contains(e) <==> (server.contains(e) && client.contains(e)),
    decreases server.len(),
{
    if server.len() > 0 {
        let init = server.drop_last();
        lemma_common_extensions_contains(init, client, e);
        assert(server == init.push(server.last()));
        let rest = common_extensions(init, client);
        if client.contains(server.last()) {
            assert(rest.push(server.last()).contains(e) <==> (rest.contains(e) || e == server.last())) by {
                if rest.push(server.last()).contains(e) {
                    let k = choose|k: int| 0 <= k < rest.len() + 1 && rest.push(server.last())[k] == e;
                    if k < rest.len() {
                        assert(rest[k] == e);
                    }
                }
                if rest.contains(e) {
                    let k = choose|k: int| 0 <= k < rest.len() && rest[k] == e;
                    assert(rest.push(server.last())[k] == e);
                }
                if e == server.last() {
                    assert(rest.push(server.last())[rest.len() as int] == e);
                }
            }
        }
        assert(server.contains(e) <==> (init.contains(e) || e == server.last())) by {
            if server.contains(e) {
                let k = choose|k: int| 0 <= k < server.len() && server[k] == e;
                if k < init.len() {
                    assert(init[k] == e);
                }
            }
            if init.contains(e) {
                let k = choose|k: int| 0 <= k < init.len() && init[k] == e;
                assert(server[k] == e);
            }
            if e == server.last() {
                assert(server[server.len() - 1] == e);
            }
        }
    }
}

/// The agreed list is never longer than the list the server offered.
pub proof fn lemma_common_extensions_len(server: Seq<Extension>, client: Seq<Extension>)
    ensures
        common_extensions(server, client).len() <= server.len(),
    decreases server.len(),
{
    if server.len() > 0 {
        lemma_common_extensions_len(server.drop_last(), client);
    }
}

/// One entry of an extension list: an id and its metadata bytes.
#[derive(Debug, Clone)]
pub struct ExtensionData {
    pub id: u8,
    pub metadata: bytes::Bytes,
}

impl View for ExtensionData {
    type V = (u8, Seq<u8>);

    open spec fn view(&self) -> (u8, Seq<u8>) {
        (self.id, bytes_seq(self.metadata))
    }
}

/// The entries of an extension list: each is an id byte, a four-byte
/// little-endian length, then that many metadata bytes. Reading stops at the
/// first entry whose header or metadata does not fit in what is left.
pub open spec fn extension_entries(data: Seq<u8>) -> Seq<(u8, Seq<u8>)>
    decreases data.len(),
{
    if data.len() < 5 {
        Seq::empty()
    } else {
        let len = le_u32_at(data, 1) as int;
        if len > data.len() - 5 {
            Seq::empty()
        } else {
            seq![(data[0], data.subrange(5, 5 + len))] + extension_entries(data.subrange(5 + len, data.len() as int))
        }
    }
}

/// The views of a list of extension entries.
pub open spec fn entry_views(v: Seq<ExtensionData>) -> Seq<(u8, Seq<u8>)> {
    v.map_values(|d: ExtensionData| d@)
}

pub fn parse_extension_data(data: &[u8]) -> (r: Vec<ExtensionData>)
    ensures
        entry_views(r@) == extension_entries(data@),
{
    let mut extensions: Vec<ExtensionData> = Vec::new();
    let mut offset: usize = 0;
    let n = data.len();
    assert(data@.subrange(0, n as int) == data@);
    assert(entry_views(extensions@) == Seq::<(u8, Seq<u8>)>::empty());
    assert(entry_views(extensions@) + extension_entries(data@) == extension_entries(data@));
    while n - offset >= 5
        invariant
            n == data@.len(),
            offset <= n,
            entry_views(extensions@) + extension_entries(data@.subrange(offset as int, n as int)) == extension_entries(data@),
        decreases n - offset,
    {
        let ghost rest = data@.subrange(offset as int, n as int);
        let id = data[offset];
        let b0 = data[offset + 1] as u32;
        let b1 = data[offset + 2] as u32;
        let b2 = data[offset + 3] as u32;
        let b3 = data[offset + 4] as u32;
        let length_u32: u32 = b0 + b1 * 256 + b2 * 65536 + b3 * 16777216;
        assert(length_u32 == le_u32_at(rest, 1));
        let length = length_u32 as usize;
        if length > n - offset - 5 {
            assert(extension_entries(rest) == Seq::<(u8, Seq<u8>)>::empty());
            assert(entry_views(extensions@) + extension_entries(rest) == entry_views(extensions@));
            assert(offset + 5 <= n);
            return extensions;
        }
        let start = offset + 5;
        let metadata = bytes_copy_from_slice(&data[start..start + length]);
        let ghost old_views = entry_views(extensions@);
        extensions.push(ExtensionData { id, metadata });
        offset = start + length;
        proof {
            assert(rest.subrange(5, 5 + length as int) == data@.subrange(start as int, offset as int));
            assert(rest.subrange(5 + length as int, rest.len() as int) == data@.subrange(offset as int, n as int));
            assert(entry_views(extensions@) == old_views.push((id, data@.subrange(start as int, offset as int))));
            assert(extension_entries(rest) == seq![(id, data@.subrange(start as int, offset as int))] + extension_entries(data@.subrange(offset as int, n as int)));
            assert(entry_views(extensions@) + extension_entries(data@.subrange(offset as int, n as int))
                =~= old_views + extension_entries(rest));
        }
    }
    assert(extension_entries(data@.subrange(offset as int, n as int)) == Seq::<(u8, Seq<u8>)>::empty());
    assert(entry_views(extensions@) + Seq::<(u8, Seq<u8>)>::empty() == entry_views(extensions@));
    extensions
}

} // verus!
