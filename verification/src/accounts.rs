//! The billing provider's connected accounts as the instance reads them:
//! their identifier, whether charges and payouts are enabled, whether
//! onboarding details are complete, and the capabilities that are active,
//! listed once each in byte order.
use vstd::prelude::*;
use vstd::string::{StrSliceExecFns, StringExecFns, StringSliceAdditionalSpecFns};
use vstd::utf8::encode_utf8;
use crate::instance::InstanceServiceError;
use crate::provider::{provider_id_ok, valid_provider_id};
use crate::text::str_eq;

verus! {

/// Byte-wise lexicographic order, the order of `str`'s `Ord`.
pub open spec fn lex_lt(a: Seq<u8>, b: Seq<u8>) -> bool
    decreases a.len(),
{
    if a.len() == 0 {
        b.len() > 0
    } else if b.len() == 0 {
        false
    } else if a[0] < b[0] {
        true
    } else if a[0] > b[0] {
        false
    } else {
        lex_lt(a.drop_first(), b.drop_first())
    }
}

pub proof fn lemma_lex_trichotomy(a: Seq<u8>, b: Seq<u8>)
    ensures
        a == b || lex_lt(a, b) || lex_lt(b, a),
        !(lex_lt(a, b) && lex_lt(b, a)),
        !lex_lt(a, a),
    decreases a.len(),
{
    if a.len() > 0 && b.len() > 0 {
        lemma_lex_trichotomy(a.drop_first(), b.drop_first());
        if a[0] == b[0] && a.drop_first() == b.drop_first() {
            assert(a =~= seq![a[0]] + a.drop_first());
            assert(b =~= seq![b[0]] + b.drop_first());
        }
    }
    if a.len() > 0 {
        lemma_lex_trichotomy(a.drop_first(), a.drop_first());
    }
}

pub proof fn lemma_lex_transitive(a: Seq<u8>, b: Seq<u8>, c: Seq<u8>)
    requires
        lex_lt(a, b),
        lex_lt(b, c),
    ensures
        lex_lt(a, c),
    decreases a.len(),
{
    if a.len() > 0 && b.len() > 0 && c.len() > 0 && a[0] == b[0] && b[0] == c[0] {
        lemma_lex_transitive(a.drop_first(), b.drop_first(), c.drop_first());
    }
}

proof fn lemma_lex_skip(a: Seq<u8>, b: Seq<u8>, k: int)
    requires
        0 <= k <= a.len(),
        k <= b.len(),
        a.take(k) == b.take(k),
    ensures
        lex_lt(a, b) == lex_lt(a.skip(k), b.skip(k)),
    decreases k,
{
    if k > 0 {
        assert(a[0] == a.take(k)[0]);
        assert(b[0] == b.take(k)[0]);
        assert(a.drop_first().take(k - 1) =~= a.take(k).drop_first());
        assert(b.drop_first().take(k - 1) =~= b.take(k).drop_first());
        lemma_lex_skip(a.drop_first(), b.drop_first(), k - 1);
        assert(a.drop_first().skip(k - 1) =~= a.skip(k));
        assert(b.drop_first().skip(k - 1) =~= b.skip(k));
    } else {
        assert(a.skip(0) =~= a);
        assert(b.skip(0) =~= b);
    }
}

/// Whether `a` comes before `b` in byte order.
pub fn bytes_less(a: &[u8], b: &[u8]) -> (r: bool)
    ensures
        r == lex_lt(a@, b@),
{
    let mut i: usize = 0;
    while i < a.len() && i < b.len() && a[i] == b[i]
        invariant
            i <= a@.len(),
            i <= b@.len(),
            a@.take(i as int) == b@.take(i as int),
        decreases a@.len() - i,
    {
        proof {
            assert(a@.take(i + 1) =~= a@.take(i as int).push(a@[i as int]));
            assert(b@.take(i + 1) =~= b@.take(i as int).push(b@[i as int]));
        }
        i = i + 1;
    }
    proof {
        lemma_lex_skip(a@, b@, i as int);
    }
    if i < a.len() && i < b.len() {
        proof {
            assert(a@.skip(i as int)[0] == a@[i as int]);
            assert(b@.skip(i as int)[0] == b@[i as int]);
        }
        a[i] < b[i]
    } else {
        proof {
            if i == a.len() {
                assert(a@.skip(i as int).len() == 0);
            } else {
                assert(b@.skip(i as int).len() == 0);
            }
        }
        i < b.len()
    }
}

/// The texts are strictly increasing in byte order, so none occurs twice.
pub open spec fn strictly_sorted(names: Seq<String>) -> bool {
    forall|i: int, j: int|
        0 <= i < j < names.len() ==> lex_lt(
            encode_utf8(#[trigger] names[i]@),
            encode_utf8(#[trigger] names[j]@),
        )
}

/// Some entry of the list holds the text `x`.
pub open spec fn lists(names: Seq<String>, x: Seq<char>) -> bool {
    exists|i: int| 0 <= i < names.len() && #[trigger] names[i]@ == x
}

proof fn lemma_utf8_injective(a: Seq<char>, b: Seq<char>)
    ensures
        (encode_utf8(a) == encode_utf8(b)) == (a == b),
{
    vstd::utf8::encode_utf8_decode_utf8(a);
    vstd::utf8::encode_utf8_decode_utf8(b);
}

/// Adds a text to a strictly sorted list, unless the list holds it already.
pub fn insert_sorted(names: &mut Vec<String>, name: String)
    requires
        strictly_sorted(old(names)@),
    ensures
        strictly_sorted(final(names)@),
        forall|x: Seq<char>| lists(final(names)@, x) == (lists(old(names)@, x) || x == name@),
{
    let key = name.as_str().as_bytes();
    let ghost kb = encode_utf8(name@);
    let n = names.len();
    let mut p: usize = 0;
    while p < n && bytes_less(names[p].as_str().as_bytes(), key)
        invariant
            p <= n == names@.len(),
            kb == key@,
            strictly_sorted(names@),
            forall|i: int| 0 <= i < p ==> lex_lt(encode_utf8(#[trigger] names@[i]@), kb),
        decreases n - p,
    {
        p = p + 1;
    }
    if p < n && str_eq(names[p].as_str(), name.as_str()) {
        proof {
            assert forall|x: Seq<char>| lists(names@, x) == (lists(names@, x) || x == name@) by {
                if x == name@ {
                    assert(names@[p as int]@ == x);
                }
            }
        }
        return;
    }
    proof {
        if p < n {
            lemma_utf8_injective(names@[p as int]@, name@);
            lemma_lex_trichotomy(encode_utf8(names@[p as int]@), kb);
        }
    }
    let ghost before = names@;
    names.insert(p, name);
    proof {
        let after = names@;
        assert forall|i: int, j: int| 0 <= i < j < after.len() implies lex_lt(
            encode_utf8(#[trigger] after[i]@),
            encode_utf8(#[trigger] after[j]@),
        ) by {
            if j < p {
                assert(after[i] == before[i] && after[j] == before[j]);
            } else if j == p {
                assert(after[i] == before[i]);
            } else if i == p {
                assert(after[j] == before[j - 1]);
                if j - 1 > p {
                    lemma_lex_transitive(kb, encode_utf8(before[p as int]@), encode_utf8(before[j - 1]@));
                }
            } else if i < p {
                assert(after[i] == before[i] && after[j] == before[j - 1]);
                assert(i < j - 1);
            } else {
                assert(after[i] == before[i - 1] && after[j] == before[j - 1]);
            }
        }
        assert forall|x: Seq<char>| lists(after, x) == (lists(before, x) || x == name@) by {
            if lists(after, x) {
                let i = choose|i: int| 0 <= i < after.len() && #[trigger] after[i]@ == x;
                if i < p {
                    assert(before[i]@ == x);
                } else if i > p {
                    assert(before[i - 1]@ == x);
                }
            }
            if lists(before, x) {
                let i = choose|i: int| 0 <= i < before.len() && #[trigger] before[i]@ == x;
                if i < p {
                    assert(after[i]@ == x);
                } else {
                    assert(after[i + 1]@ == x);
                }
            }
            if x == name@ {
                assert(after[p as int]@ == x);
            }
        }
    }
}

/// What the instance knows of a provider account.
#[derive(Clone, Debug, PartialEq, Eq)]
pub struct ProviderAccountState {
    pub id: String,
    pub status: &'static str,
    pub charges_enabled: bool,
    pub payouts_enabled: bool,
    pub details_submitted: bool,
    pub capabilities: Vec<String>,
}

/// An account as version one of the provider's API describes it: each field
/// where it is present with the expected JSON type, and each capability with
/// its status where that is text.
#[derive(Clone, Debug)]
pub struct V1AccountPayload {
    pub id: Option<String>,
    pub charges_enabled: Option<bool>,
    pub payouts_enabled: Option<bool>,
    pub details_submitted: Option<bool>,
    pub capabilities: Vec<(String, Option<String>)>,
}

pub open spec fn flag(value: Option<bool>) -> bool {
    match value {
        Some(b) => b,
        None => false,
    }
}

/// A capability of a version-one account is active when its status is
/// `active`.
pub open spec fn v1_active(entry: (String, Option<String>)) -> bool {
    entry.1 matches Some(s) && s@ == "active"@
}

/// The account state a version-one account gives: it must carry an account
/// identifier; it is enabled when charges are enabled and details are
/// submitted, restricted otherwise.
pub open spec fn v1_state_ok(payload: V1AccountPayload, r: ProviderAccountState) -> bool {
    &&& payload.id matches Some(id) && id@ == r.id@ && provider_id_ok(encode_utf8(id@), "acct_".spec_bytes())
    &&& r.charges_enabled == flag(payload.charges_enabled)
    &&& r.payouts_enabled == flag(payload.payouts_enabled)
    &&& r.details_submitted == flag(payload.details_submitted)
    &&& r.status@ == (if r.charges_enabled && r.details_submitted { "enabled"@ } else { "restricted"@ })
    &&& strictly_sorted(r.capabilities@)
    &&& forall|x: Seq<char>|
        lists(r.capabilities@, x) == exists|k: int|
            0 <= k < payload.capabilities@.len() && v1_active(#[trigger] payload.capabilities@[k])
                && payload.capabilities@[k].0@ == x
}

/// Reads a version-one account; an account without a well-formed account
/// identifier is refused by the provider check.
pub fn parse_v1_account(payload: &V1AccountPayload) -> (r: Result<ProviderAccountState, InstanceServiceError>)
    ensures
        match r {
            Ok(state) => v1_state_ok(*payload, state),
            Err(e) => e == InstanceServiceError::ProviderRejected && !(payload.id matches Some(id)
                && provider_id_ok(encode_utf8(id@), "acct_".spec_bytes())),
        },
{
    let id = match &payload.id {
        Some(id) => {
            if !valid_provider_id(id.as_str(), "acct_") {
                return Err(InstanceServiceError::ProviderRejected);
            }
            id.clone()
        },
        None => {
            return Err(InstanceServiceError::ProviderRejected);
        },
    };
    let charges_enabled = match payload.charges_enabled {
        Some(b) => b,
        None => false,
    };
    let payouts_enabled = match payload.payouts_enabled {
        Some(b) => b,
        None => false,
    };
    let details_submitted = match payload.details_submitted {
        Some(b) => b,
        None => false,
    };
    let caps = &payload.capabilities;
    let mut capabilities: Vec<String> = Vec::new();
    let mut k: usize = 0;
    while k < caps.len()
        invariant
            k <= caps@.len(),
            caps@ == payload.capabilities@,
            strictly_sorted(capabilities@),
            forall|x: Seq<char>|
                lists(capabilities@, x) == exists|j: int|
                    0 <= j < k && v1_active(#[trigger] caps@[j]) && caps@[j].0@ == x,
        decreases caps@.len() - k,
    {
        let (name, status) = &caps[k];
        let active = match status {
            Some(s) => str_eq(s.as_str(), "active"),
            None => false,
        };
        let ghost before = capabilities@;
        if active {
            insert_sorted(&mut capabilities, name.clone());
        }
        proof {
            assert forall|x: Seq<char>| lists(capabilities@, x) == exists|j: int|
                0 <= j < k + 1 && v1_active(#[trigger] caps@[j]) && caps@[j].0@ == x by {
                if exists|j: int| 0 <= j < k + 1 && v1_active(#[trigger] caps@[j]) && caps@[j].0@ == x {
                    let j = choose|j: int| 0 <= j < k + 1 && v1_active(#[trigger] caps@[j]) && caps@[j].0@ == x;
                    if j < k {
                        assert(exists|j: int| 0 <= j < k && v1_active(#[trigger] caps@[j]) && caps@[j].0@ == x);
                    }
                }
                if exists|j: int| 0 <= j < k && v1_active(#[trigger] caps@[j]) && caps@[j].0@ == x {
                    let j = choose|j: int| 0 <= j < k && v1_active(#[trigger] caps@[j]) && caps@[j].0@ == x;
                    assert(0 <= j < k + 1);
                }
            }
        }
        k = k + 1;
    }
    let status = if charges_enabled && details_submitted {
        "enabled"
    } else {
        "restricted"
    };
    Ok(
        ProviderAccountState {
            id,
            status,
            charges_enabled,
            payouts_enabled,
            details_submitted,
            capabilities,
        },
    )
}


/// A capability entry of a version-two account: its name, its `status`
/// where that is text, and its nested entries where its value is an object.
pub struct CapabilityNode {
    pub name: String,
    pub status: Option<String>,
    pub children: Option<Vec<CapabilityNode>>,
}

/// An account as version two of the provider's API describes it: its
/// identifier, the merchant capabilities where they are an object, and the
/// number of outstanding requirement entries where they are a list.
pub struct V2AccountPayload {
    pub id: Option<String>,
    pub capabilities: Option<Vec<CapabilityNode>>,
    pub requirement_entries: Option<u64>,
}

/// The path of a capability under a prefix: its name, after the prefix and
/// a dot where there is a prefix.
pub open spec fn capability_path(prefix: Seq<char>, name: Seq<char>) -> Seq<char> {
    if prefix.len() == 0 {
        name
    } else {
        prefix + "."@ + name
    }
}

/// The paths of the active capabilities among some entries and the entries
/// nested in them.
pub open spec fn active_set(nodes: Seq<CapabilityNode>, prefix: Seq<char>) -> Set<Seq<char>>
    decreases nodes,
{
    if nodes.len() == 0 {
        Set::empty()
    } else {
        active_set(nodes.drop_last(), prefix) + node_set(nodes.last(), prefix)
    }
}

/// The paths of the active capabilities of one entry and those nested in it.
pub open spec fn node_set(node: CapabilityNode, prefix: Seq<char>) -> Set<Seq<char>>
    decreases node,
{
    let path = capability_path(prefix, node.name@);
    match node.children {
        Some(c) => own_set(node, path) + active_set(c@, path),
        None => own_set(node, path),
    }
}

/// The path of an entry itself where its status is `active`, else nothing.
pub open spec fn own_set(node: CapabilityNode, path: Seq<char>) -> Set<Seq<char>> {
    if node.status matches Some(s) && s@ == "active"@ {
        set![path]
    } else {
        Set::empty()
    }
}

fn path_of(prefix: &str, name: &str) -> (r: String)
    ensures
        r@ == capability_path(prefix@, name@),
{
    if prefix.unicode_len() == 0 {
        name.to_owned()
    } else {
        let mut p = String::new();
        p.append(prefix);
        p.append(".");
        p.append(name);
        p
    }
}

fn collect_node(node: &CapabilityNode, prefix: &str, out: &mut Vec<String>)
    requires
        strictly_sorted(old(out)@),
    ensures
        strictly_sorted(final(out)@),
        forall|x: Seq<char>| #[trigger] lists(final(out)@, x) == (lists(old(out)@, x) || node_set(*node, prefix@).contains(x)),
    decreases *node,
{
    let path = path_of(prefix, node.name.as_str());
    let active = match &node.status {
        Some(s) => str_eq(s.as_str(), "active"),
        None => false,
    };
    let ghost start = out@;
    if active {
        insert_sorted(out, path.clone());
    }
    let ghost mid = out@;
    match &node.children {
        Some(c) => {
            collect_nodes(c, path.as_str(), out);
        },
        None => {},
    }
    proof {
        assert forall|x: Seq<char>| lists(mid, x) == (lists(start, x) || own_set(*node, path@).contains(x)) by {}
    }
}

fn collect_nodes(nodes: &Vec<CapabilityNode>, prefix: &str, out: &mut Vec<String>)
    requires
        strictly_sorted(old(out)@),
    ensures
        strictly_sorted(final(out)@),
        forall|x: Seq<char>| #[trigger] lists(final(out)@, x) == (lists(old(out)@, x) || active_set(nodes@, prefix@).contains(x)),
    decreases nodes@,
{
    let ghost start = out@;
    let n = nodes.len();
    let mut i: usize = 0;
    while i < n
        invariant
            i <= n == nodes@.len(),
            strictly_sorted(out@),
            forall|x: Seq<char>| #[trigger] lists(out@, x) == (lists(start, x) || active_set(nodes@.take(i as int), prefix@).contains(x)),
        decreases n - i,
    {
        proof {
            assert(nodes@.take(i + 1).drop_last() =~= nodes@.take(i as int));
            assert(nodes@.take(i + 1).last() == nodes@[i as int]);
            assert(active_set(nodes@.take(i + 1), prefix@) == active_set(nodes@.take(i as int), prefix@)
                + node_set(nodes@[i as int], prefix@));
        }
        let ghost before = out@;
        collect_node(&nodes[i], prefix, out);
        let ghost k: int = i as int;
        i = i + 1;
        proof {
            assert forall|x: Seq<char>| #[trigger] lists(out@, x) == (lists(start, x) || active_set(
                nodes@.take(i as int),
                prefix@,
            ).contains(x)) by {
                assert(lists(out@, x) == (lists(before, x) || node_set(nodes@[k], prefix@).contains(x)));
                assert(lists(before, x) == (lists(start, x) || active_set(nodes@.take(k), prefix@).contains(x)));
            }
        }
    }
    proof {
        assert(nodes@.take(n as int) =~= nodes@);
    }
}

/// The first top-level entry with the given name, as `Map::get` finds it.
pub open spec fn find_node(nodes: Seq<CapabilityNode>, name: Seq<char>) -> Option<CapabilityNode>
    decreases nodes.len(),
{
    if nodes.len() == 0 {
        None
    } else if nodes[0].name@ == name {
        Some(nodes[0])
    } else {
        find_node(nodes.drop_first(), name)
    }
}

fn find_capability<'a>(nodes: &'a Vec<CapabilityNode>, name: &str) -> (r: Option<&'a CapabilityNode>)
    ensures
        match r {
            Some(n) => find_node(nodes@, name@) == Some(*n),
            None => find_node(nodes@, name@) is None,
        },
{
    let mut i: usize = 0;
    proof {
        assert(nodes@.skip(0) =~= nodes@);
    }
    while i < nodes.len()
        invariant
            i <= nodes@.len(),
            find_node(nodes@, name@) == find_node(nodes@.skip(i as int), name@),
        decreases nodes@.len() - i,
    {
        proof {
            assert(nodes@.skip(i as int)[0] == nodes@[i as int]);
            assert(nodes@.skip(i as int).drop_first() =~= nodes@.skip(i + 1));
        }
        if str_eq(nodes[i].name.as_str(), name) {
            return Some(&nodes[i]);
        }
        i = i + 1;
    }
    None
}

/// The entry has text status `active`.
pub open spec fn status_active(node: Option<CapabilityNode>) -> bool {
    node matches Some(n) && (n.status matches Some(s) && s@ == "active"@)
}

/// The state a version-two account gives: it must carry an account
/// identifier; charges are enabled when card payments are active, payouts
/// when the balance's payouts are active; details are submitted when no
/// requirement entry is outstanding; it is enabled with charges and details,
/// restricted with details alone, onboarding otherwise.
pub open spec fn v2_state_ok(payload: V2AccountPayload, r: ProviderAccountState) -> bool {
    let caps = match payload.capabilities {
        Some(c) => c@,
        None => Seq::empty(),
    };
    let charges = payload.capabilities is Some && status_active(find_node(caps, "card_payments"@));
    let balance = find_node(caps, "stripe_balance"@);
    let payouts = payload.capabilities is Some && (balance matches Some(b) && (b.children matches Some(c)
        && status_active(find_node(c@, "payouts"@))));
    let details = payload.requirement_entries == Some(0u64);
    &&& payload.id matches Some(id) && id@ == r.id@ && provider_id_ok(encode_utf8(id@), "acct_".spec_bytes())
    &&& r.charges_enabled == charges
    &&& r.payouts_enabled == payouts
    &&& r.details_submitted == details
    &&& r.status@ == (if charges && details {
        "enabled"@
    } else if details {
        "restricted"@
    } else {
        "onboarding"@
    })
    &&& strictly_sorted(r.capabilities@)
    &&& forall|x: Seq<char>| lists(r.capabilities@, x) == (payload.capabilities is Some && active_set(caps, Seq::empty()).contains(x))
}

fn node_status_active(node: Option<&CapabilityNode>) -> (r: bool)
    ensures
        r == status_active(match node {
            Some(n) => Some(*n),
            None => None,
        }),
{
    match node {
        Some(n) => match &n.status {
            Some(s) => str_eq(s.as_str(), "active"),
            None => false,
        },
        None => false,
    }
}

/// Reads a version-two account.
pub fn parse_v2_account(payload: &V2AccountPayload) -> (r: Result<ProviderAccountState, InstanceServiceError>)
    ensures
        match r {
            Ok(state) => v2_state_ok(*payload, state),
            Err(e) => e == InstanceServiceError::ProviderRejected && !(payload.id matches Some(id)
                && provider_id_ok(encode_utf8(id@), "acct_".spec_bytes())),
        },
{
    let id = match &payload.id {
        Some(id) => {
            if !valid_provider_id(id.as_str(), "acct_") {
                return Err(InstanceServiceError::ProviderRejected);
            }
            id.clone()
        },
        None => {
            return Err(InstanceServiceError::ProviderRejected);
        },
    };
    let (charges_enabled, payouts_enabled) = match &payload.capabilities {
        Some(caps) => {
            let charges = node_status_active(find_capability(caps, "card_payments"));
            let payouts = match find_capability(caps, "stripe_balance") {
                Some(b) => match &b.children {
                    Some(c) => node_status_active(find_capability(c, "payouts")),
                    None => false,
                },
                None => false,
            };
            (charges, payouts)
        },
        None => (false, false),
    };
    let details_submitted = payload.requirement_entries == Some(0u64);
    let mut capabilities: Vec<String> = Vec::new();
    proof {
        reveal_strlit("");
        assert("".view() =~= Seq::<char>::empty());
    }
    match &payload.capabilities {
        Some(caps) => {
            collect_nodes(caps, "", &mut capabilities);
        },
        None => {
            assert forall|x: Seq<char>| !lists(capabilities@, x) by {}
        },
    }
    let status = if charges_enabled && details_submitted {
        "enabled"
    } else if details_submitted {
        "restricted"
    } else {
        "onboarding"
    };
    Ok(
        ProviderAccountState {
            id,
            status,
            charges_enabled,
            payouts_enabled,
            details_submitted,
            capabilities,
        },
    )
}

} // verus!
