//! The voice forwarder's decisions: which Device a datagram comes from,
//! which User a new peer joins (peers whose packets carry one ssrc are
//! Devices of one User, and the first of them is its audio source), and the
//! control line `switch <ssrc> <addr>`, which moves the audio source of the
//! User whose packets carry `ssrc` onto the peer at `addr`.
//!
//! The node's loop performs the actions these functions return; transport
//! addresses reach them as integers the loop assigns.
use std::collections::HashMap;
use vstd::prelude::*;
use crate::common::buf::{bytes_clone, bytes_view};
use crate::common::packet::{decode, decode_spec};
use crate::common::text::{
    decimal, is_digit, lemma_decimal_digits, lemma_parse_decimal, parse_u64, parse_u64_spec, push_char,
};
use vstd::std_specs::iter::IteratorSpec;

verus! {

pub open spec fn is_space(c: char) -> bool {
    c == ' ' || c == '\t' || c == '\r' || c == '\n'
}

/// Splitting the first characters of a line: the words completed so far and
/// the word being read.
pub open spec fn split_state(s: Seq<char>) -> (Seq<Seq<char>>, Seq<char>)
    decreases s.len(),
{
    if s.len() == 0 {
        (Seq::empty(), Seq::empty())
    } else {
        let (done, current) = split_state(s.drop_last());
        if is_space(s.last()) {
            if current.len() > 0 {
                (done.push(current), Seq::empty())
            } else {
                (done, Seq::empty())
            }
        } else {
            (done, current.push(s.last()))
        }
    }
}

/// The words of a line: its maximal runs of non-space characters, in order.
pub open spec fn words(s: Seq<char>) -> Seq<Seq<char>> {
    let (done, current) = split_state(s);
    if current.len() > 0 {
        done.push(current)
    } else {
        done
    }
}

/// A parsed `switch` control line.
pub struct SwitchCommand {
    pub ssrc: u32,
    pub addr: String,
}

/// The command a control line holds: exactly three words, the first
/// `switch`, the second a `u32` in decimal.
pub open spec fn switch_command_spec(line: Seq<char>) -> Option<(u32, Seq<char>)> {
    let w = words(line);
    if w.len() == 3 && w[0] == "switch"@ && (parse_u64_spec(w[1]) matches Some(v) && v
        <= u32::MAX) {
        Some((parse_u64_spec(w[1]).unwrap() as u32, w[2]))
    } else {
        None
    }
}

/// Splits a line into its words.
pub fn split_words(line: &str) -> (r: Vec<String>)
    ensures
        r@.len() == words(line@).len(),
        forall|i: int| 0 <= i < r@.len() ==> #[trigger] r@[i]@ == words(line@)[i],
{
    broadcast use vstd::string::group_string_axioms;
    let mut done: Vec<String> = Vec::new();
    let mut current = String::new();
    let mut chars = line.chars();
    let ghost mut k: int = 0;
    loop
        invariant
            0 <= k <= line@.len(),
            chars.remaining() == line@.skip(k),
            done@.len() == split_state(line@.take(k)).0.len(),
            forall|i: int| 0 <= i < done@.len() ==> #[trigger] done@[i]@ == split_state(line@.take(k)).0[i],
            current@ == split_state(line@.take(k)).1,
        ensures
            done@.len() == split_state(line@).0.len(),
            forall|i: int| 0 <= i < done@.len() ==> #[trigger] done@[i]@ == split_state(line@).0[i],
            current@ == split_state(line@).1,
        decreases line@.len() - k,
    {
        match chars.next() {
            Some(c) => {
                proof {
                    assert(line@.skip(k)[0] == line@[k]);
                    assert(line@.skip(k).drop_first() =~= line@.skip(k + 1));
                    assert(line@.take(k + 1).drop_last() =~= line@.take(k));
                    assert(line@.take(k + 1).last() == c);
                }
                if c == ' ' || c == '\t' || c == '\r' || c == '\n' {
                    if !current.as_str().is_empty() {
                        let word = current;
                        current = String::new();
                        done.push(word);
                    }
                } else {
                    push_char(&mut current, c);
                }
                proof {
                    k = k + 1;
                }
            },
            None => {
                proof {
                    assert(line@.take(k) =~= line@);
                }
                break;
            },
        }
    }
    if !current.as_str().is_empty() {
        done.push(current);
    }
    done
}

/// Parses a `switch <ssrc> <addr>` control line; `None` for anything else.
pub fn parse_switch_command(line: &str) -> (r: Option<SwitchCommand>)
    ensures
        match (r, switch_command_spec(line@)) {
            (Some(c), Some((ssrc, addr))) => c.ssrc == ssrc && c.addr@ == addr,
            (None, None) => true,
            _ => false,
        },
{
    let mut w = split_words(line);
    if w.len() != 3 {
        return None;
    }
    let keyword = "switch".to_owned();
    if w[0] != keyword {
        return None;
    }
    let ssrc = match parse_u64(w[1].as_str()) {
        Some(v) => v,
        None => {
            return None;
        },
    };
    if ssrc > u32::MAX as u64 {
        return None;
    }
    let addr = w.pop().unwrap();
    Some(SwitchCommand { ssrc: ssrc as u32, addr })
}

/// The peers a voice node knows: each transport address (by the number the
/// node gave it) with its Device entity, and each ssrc that introduced a new
/// peer with the User entity its packets belong to.
pub struct VoicePeers {
    pub peers: HashMap<u64, hecs::Entity>,
    pub users_by_ssrc: HashMap<u32, hecs::Entity>,
}

/// What the node does with a datagram.
pub enum PeerAction {
    /// Forward it as a packet from this Device.
    Forward { from: hecs::Entity },
    /// The sender is new and belongs to no known User: create a User for it,
    /// remembered under `ssrc` when the packet has one, then register the
    /// sender as that User's first Device.
    NewUserThenRegister { ssrc: Option<u32> },
    /// The sender is new: register it as a Device of `owner`, carrying
    /// `AudioSource` if `as_source`.
    Register { owner: hecs::Entity, as_source: bool },
}

/// The action for a datagram holding `b` from the address numbered `addr`:
/// a known address forwards as its Device; a new one joins the User known
/// for the packet's ssrc, muted until switched to, and otherwise starts a
/// new User.
pub open spec fn datagram_action(
    peers: Map<u64, hecs::Entity>,
    users_by_ssrc: Map<u32, hecs::Entity>,
    addr: u64,
    b: Seq<u8>,
) -> PeerAction {
    if peers.contains_key(addr) {
        PeerAction::Forward { from: peers[addr] }
    } else {
        match decode_spec(b) {
            Ok((h, _)) => if users_by_ssrc.contains_key(h.ssrc) {
                PeerAction::Register { owner: users_by_ssrc[h.ssrc], as_source: false }
            } else {
                PeerAction::NewUserThenRegister { ssrc: Some(h.ssrc) }
            },
            Err(_) => PeerAction::NewUserThenRegister { ssrc: None },
        }
    }
}

impl VoicePeers {
    /// No peers and no Users yet.
    pub fn new() -> (r: VoicePeers)
        ensures
            r.peers@ == Map::<u64, hecs::Entity>::empty(),
            r.users_by_ssrc@ == Map::<u32, hecs::Entity>::empty(),
    {
        VoicePeers { peers: HashMap::new(), users_by_ssrc: HashMap::new() }
    }

    /// Records the User created for a new peer, under the packet's ssrc if it
    /// had one, and answers the next step: register the peer as that User's
    /// first Device, its audio source.
    pub fn remember_user(&mut self, ssrc: Option<u32>, user: hecs::Entity) -> (a: PeerAction)
        ensures
            final(self).peers@ == old(self).peers@,
            final(self).users_by_ssrc@ == match ssrc {
                Some(s) => old(self).users_by_ssrc@.insert(s, user),
                None => old(self).users_by_ssrc@,
            },
            a == (PeerAction::Register { owner: user, as_source: true }),
    {
        broadcast use vstd::std_specs::hash::group_hash_axioms;

        if let Some(s) = ssrc {
            self.users_by_ssrc.insert(s, user);
        }
        PeerAction::Register { owner: user, as_source: true }
    }

    /// Records the Device registered for the address numbered `addr`.
    pub fn remember_peer(&mut self, addr: u64, device: hecs::Entity)
        ensures
            final(self).peers@ == old(self).peers@.insert(addr, device),
            final(self).users_by_ssrc@ == old(self).users_by_ssrc@,
    {
        broadcast use vstd::std_specs::hash::group_hash_axioms;

        self.peers.insert(addr, device);
    }
}

/// Decides what to do with a datagram holding `packet` from the address
/// numbered `addr`.
pub fn on_datagram(state: &VoicePeers, addr: u64, packet: &bytes::Bytes) -> (a: PeerAction)
    ensures
        a == datagram_action(state.peers@, state.users_by_ssrc@, addr, bytes_view(*packet)),
{
    broadcast use vstd::std_specs::hash::group_hash_axioms;

    if let Some(device) = state.peers.get(&addr) {
        return PeerAction::Forward { from: *device };
    }
    match decode(bytes_clone(packet)) {
        Ok((header, _payload)) => match state.users_by_ssrc.get(&header.ssrc) {
            Some(owner) => PeerAction::Register { owner: *owner, as_source: false },
            None => PeerAction::NewUserThenRegister { ssrc: Some(header.ssrc) },
        },
        Err(_) => PeerAction::NewUserThenRegister { ssrc: None },
    }
}

/// The User and Device a `switch <ssrc> <addr>` line names: the User known
/// for `ssrc` and the Device at the address numbered `addr`, or `None` if
/// either is unknown.
pub fn switch_target(state: &VoicePeers, ssrc: u32, addr: u64) -> (r: Option<(hecs::Entity, hecs::Entity)>)
    ensures
        r == (if state.users_by_ssrc@.contains_key(ssrc) && state.peers@.contains_key(addr) {
            Some((state.users_by_ssrc@[ssrc], state.peers@[addr]))
        } else {
            None
        }),
{
    broadcast use vstd::std_specs::hash::group_hash_axioms;

    match (state.users_by_ssrc.get(&ssrc), state.peers.get(&addr)) {
        (Some(user), Some(device)) => Some((*user, *device)),
        _ => None,
    }
}

/// Peers whose packets carry one ssrc are Devices of one User: once a User
/// is remembered for an ssrc, a datagram from any new address whose packet
/// carries that ssrc registers its sender as a Device of that User, not as
/// its audio source.
pub proof fn lemma_same_ssrc_joins_same_user(
    peers: Map<u64, hecs::Entity>,
    users_by_ssrc: Map<u32, hecs::Entity>,
    ssrc: u32,
    user: hecs::Entity,
    addr: u64,
    b: Seq<u8>,
)
    requires
        !peers.contains_key(addr),
        decode_spec(b) matches Ok((h, _)) && h.ssrc == ssrc,
    ensures
        datagram_action(peers, users_by_ssrc.insert(ssrc, user), addr, b) == (PeerAction::Register {
            owner: user,
            as_source: false,
        }),
{
}

/// A registered address is forwarded from then on: after its Device is
/// remembered, every datagram from it is forwarded as that Device's packet,
/// whatever it holds.
pub proof fn lemma_known_peer_is_forwarded(
    peers: Map<u64, hecs::Entity>,
    users_by_ssrc: Map<u32, hecs::Entity>,
    addr: u64,
    device: hecs::Entity,
    b: Seq<u8>,
)
    ensures
        datagram_action(peers.insert(addr, device), users_by_ssrc, addr, b) == (PeerAction::Forward {
            from: device,
        }),
{
}

/// Appending a word (no spaces) to a line that ends between words makes it
/// the word being read.
proof fn lemma_split_append_word(s: Seq<char>, w: Seq<char>)
    requires
        split_state(s).1.len() == 0,
        forall|i: int| 0 <= i < w.len() ==> !is_space(#[trigger] w[i]),
    ensures
        split_state(s + w) == (split_state(s).0, w),
    decreases w.len(),
{
    if w.len() == 0 {
        assert(s + w =~= s);
    } else {
        lemma_split_append_word(s, w.drop_last());
        assert((s + w).drop_last() =~= s + w.drop_last());
        assert((s + w).last() == w.last());
        assert(!is_space(w[w.len() - 1]));
        assert(w.drop_last().push(w.last()) =~= w);
    }
}

/// A space after a word completes it.
proof fn lemma_split_append_space(s: Seq<char>)
    requires
        split_state(s).1.len() > 0,
    ensures
        split_state(s.push(' ')) == (split_state(s).0.push(split_state(s).1), Seq::<char>::empty()),
{
    assert(s.push(' ').drop_last() =~= s);
}

/// Every `u32` ssrc is accepted: `switch`, the ssrc in decimal and an
/// address (one word) make a control line naming exactly that ssrc and that
/// address.
pub proof fn lemma_switch_line_accepts_every_ssrc(ssrc: u32, addr: Seq<char>)
    requires
        addr.len() > 0,
        forall|i: int| 0 <= i < addr.len() ==> !is_space(#[trigger] addr[i]),
    ensures
        switch_command_spec("switch "@ + decimal(ssrc as nat) + " "@ + addr) == Some((ssrc, addr)),
{
    reveal_strlit("switch ");
    reveal_strlit(" ");
    reveal_strlit("switch");
    let kw = "switch"@;
    let dec = decimal(ssrc as nat);
    lemma_decimal_digits(ssrc as nat);
    lemma_parse_decimal(ssrc as u64);
    assert forall|i: int| 0 <= i < dec.len() implies !is_space(#[trigger] dec[i]) by {
        assert(is_digit(dec[i]));
    }
    assert forall|i: int| 0 <= i < kw.len() implies !is_space(#[trigger] kw[i]) by {}
    let e = Seq::<char>::empty();
    lemma_split_append_word(e, kw);
    assert(e + kw =~= kw);
    lemma_split_append_space(kw);
    let s1 = kw.push(' ');
    lemma_split_append_word(s1, dec);
    lemma_split_append_space(s1 + dec);
    let s2 = (s1 + dec).push(' ');
    lemma_split_append_word(s2, addr);
    let line = s2 + addr;
    assert(line =~= "switch "@ + dec + " "@ + addr);
    assert(words(line) =~= seq![kw, dec, addr]);
}

} // verus!
