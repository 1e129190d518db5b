use vstd::prelude::*;

use crate::client::NetworkName;
use crate::ids::AccountId;
use crate::network::{addresses_for, book_names, lemma_single_address, NetworkData};

verus! {

/// One address-book entry: `address` serves account `0.0.num`.
fn entry(address: &str, num: u64) -> (r: (String, AccountId))
    ensures
        r.0@ == address@,
        r.1 == (AccountId { shard: 0, realm: 0, num }),
{
    (address.to_owned(), AccountId::new(0, 0, num))
}

/// The address of built-in mainnet node `0.0.num`.
pub open spec fn mainnet_address(num: u64) -> Seq<char> {
    if num == 3 {
        "35.237.200.180:50211"@
    }     else if num == 4 {
        "35.186.191.247:50211"@
    }     else if num == 5 {
        "35.192.2.25:50211"@
    }     else if num == 6 {
        "35.199.161.108:50211"@
    }     else if num == 7 {
        "35.203.82.240:50211"@
    }     else if num == 8 {
        "35.236.5.219:50211"@
    }     else if num == 9 {
        "35.197.192.225:50211"@
    }     else if num == 10 {
        "35.242.233.154:50211"@
    }     else if num == 11 {
        "35.240.118.96:50211"@
    }     else if num == 12 {
        "35.204.86.32:50211"@
    } else {
        Seq::empty()
    }
}

/// The built-in mainnet consensus nodes: `0.0.3` onwards, one address each.
pub fn mainnet_nodes() -> (r: Vec<(String, AccountId)>)
    ensures
        r@.len() == 10,
        forall|k: int| 0 <= k < 10 ==> (#[trigger] r@[k]).1 == (AccountId { shard: 0, realm: 0, num: (k + 3) as u64 })
            && r@[k].0@ == mainnet_address((k + 3) as u64),
{
    let mut r: Vec<(String, AccountId)> = Vec::new();
    r.push(entry("35.237.200.180:50211", 3));
    r.push(entry("35.186.191.247:50211", 4));
    r.push(entry("35.192.2.25:50211", 5));
    r.push(entry("35.199.161.108:50211", 6));
    r.push(entry("35.203.82.240:50211", 7));
    r.push(entry("35.236.5.219:50211", 8));
    r.push(entry("35.197.192.225:50211", 9));
    r.push(entry("35.242.233.154:50211", 10));
    r.push(entry("35.240.118.96:50211", 11));
    r.push(entry("35.204.86.32:50211", 12));
    proof {
        reveal_strlit("35.237.200.180:50211");
        reveal_strlit("35.186.191.247:50211");
        reveal_strlit("35.192.2.25:50211");
        reveal_strlit("35.199.161.108:50211");
        reveal_strlit("35.203.82.240:50211");
        reveal_strlit("35.236.5.219:50211");
        reveal_strlit("35.197.192.225:50211");
        reveal_strlit("35.242.233.154:50211");
        reveal_strlit("35.240.118.96:50211");
        reveal_strlit("35.204.86.32:50211");
        assert forall|k: int| 0 <= k < 10 implies (#[trigger] r@[k]).1 == (AccountId { shard: 0, realm: 0, num: (k + 3) as u64 })
            && r@[k].0@ == mainnet_address((k + 3) as u64) by {
            if k == 0 {
            }             else if k == 1 {
            }             else if k == 2 {
            }             else if k == 3 {
            }             else if k == 4 {
            }             else if k == 5 {
            }             else if k == 6 {
            }             else if k == 7 {
            }             else if k == 8 {
            }             else if k == 9 {
            }
        }
    }
    r
}

/// The address of built-in testnet node `0.0.num`.
pub open spec fn testnet_address(num: u64) -> Seq<char> {
    if num == 3 {
        "0.testnet.hedera.com:50211"@
    }     else if num == 4 {
        "1.testnet.hedera.com:50211"@
    }     else if num == 5 {
        "2.testnet.hedera.com:50211"@
    }     else if num == 6 {
        "3.testnet.hedera.com:50211"@
    }     else if num == 7 {
        "4.testnet.hedera.com:50211"@
    }     else if num == 8 {
        "5.testnet.hedera.com:50211"@
    }     else if num == 9 {
        "6.testnet.hedera.com:50211"@
    } else {
        Seq::empty()
    }
}

/// The built-in testnet consensus nodes: `0.0.3` onwards, one address each.
pub fn testnet_nodes() -> (r: Vec<(String, AccountId)>)
    ensures
        r@.len() == 7,
        forall|k: int| 0 <= k < 7 ==> (#[trigger] r@[k]).1 == (AccountId { shard: 0, realm: 0, num: (k + 3) as u64 })
            && r@[k].0@ == testnet_address((k + 3) as u64),
{
    let mut r: Vec<(String, AccountId)> = Vec::new();
    r.push(entry("0.testnet.hedera.com:50211", 3));
    r.push(entry("1.testnet.hedera.com:50211", 4));
    r.push(entry("2.testnet.hedera.com:50211", 5));
    r.push(entry("3.testnet.hedera.com:50211", 6));
    r.push(entry("4.testnet.hedera.com:50211", 7));
    r.push(entry("5.testnet.hedera.com:50211", 8));
    r.push(entry("6.testnet.hedera.com:50211", 9));
    proof {
        reveal_strlit("0.testnet.hedera.com:50211");
        reveal_strlit("1.testnet.hedera.com:50211");
        reveal_strlit("2.testnet.hedera.com:50211");
        reveal_strlit("3.testnet.hedera.com:50211");
        reveal_strlit("4.testnet.hedera.com:50211");
        reveal_strlit("5.testnet.hedera.com:50211");
        reveal_strlit("6.testnet.hedera.com:50211");
        assert forall|k: int| 0 <= k < 7 implies (#[trigger] r@[k]).1 == (AccountId { shard: 0, realm: 0, num: (k + 3) as u64 })
            && r@[k].0@ == testnet_address((k + 3) as u64) by {
            if k == 0 {
            }             else if k == 1 {
            }             else if k == 2 {
            }             else if k == 3 {
            }             else if k == 4 {
            }             else if k == 5 {
            }             else if k == 6 {
            }
        }
    }
    r
}

/// The address of built-in previewnet node `0.0.num`.
pub open spec fn previewnet_address(num: u64) -> Seq<char> {
    if num == 3 {
        "0.previewnet.hedera.com:50211"@
    }     else if num == 4 {
        "1.previewnet.hedera.com:50211"@
    }     else if num == 5 {
        "2.previewnet.hedera.com:50211"@
    }     else if num == 6 {
        "3.previewnet.hedera.com:50211"@
    }     else if num == 7 {
        "4.previewnet.hedera.com:50211"@
    }     else if num == 8 {
        "5.previewnet.hedera.com:50211"@
    }     else if num == 9 {
        "6.previewnet.hedera.com:50211"@
    } else {
        Seq::empty()
    }
}

/// The built-in previewnet consensus nodes: `0.0.3` onwards, one address each.
pub fn previewnet_nodes() -> (r: Vec<(String, AccountId)>)
    ensures
        r@.len() == 7,
        forall|k: int| 0 <= k < 7 ==> (#[trigger] r@[k]).1 == (AccountId { shard: 0, realm: 0, num: (k + 3) as u64 })
            && r@[k].0@ == previewnet_address((k + 3) as u64),
{
    let mut r: Vec<(String, AccountId)> = Vec::new();
    r.push(entry("0.previewnet.hedera.com:50211", 3));
    r.push(entry("1.previewnet.hedera.com:50211", 4));
    r.push(entry("2.previewnet.hedera.com:50211", 5));
    r.push(entry("3.previewnet.hedera.com:50211", 6));
    r.push(entry("4.previewnet.hedera.com:50211", 7));
    r.push(entry("5.previewnet.hedera.com:50211", 8));
    r.push(entry("6.previewnet.hedera.com:50211", 9));
    proof {
        reveal_strlit("0.previewnet.hedera.com:50211");
        reveal_strlit("1.previewnet.hedera.com:50211");
        reveal_strlit("2.previewnet.hedera.com:50211");
        reveal_strlit("3.previewnet.hedera.com:50211");
        reveal_strlit("4.previewnet.hedera.com:50211");
        reveal_strlit("5.previewnet.hedera.com:50211");
        reveal_strlit("6.previewnet.hedera.com:50211");
        assert forall|k: int| 0 <= k < 7 implies (#[trigger] r@[k]).1 == (AccountId { shard: 0, realm: 0, num: (k + 3) as u64 })
            && r@[k].0@ == previewnet_address((k + 3) as u64) by {
            if k == 0 {
            }             else if k == 1 {
            }             else if k == 2 {
            }             else if k == 3 {
            }             else if k == 4 {
            }             else if k == 5 {
            }             else if k == 6 {
            }
        }
    }
    r
}

/// The single node of a local test network: `127.0.0.1:50211` serving `0.0.3`.
pub fn localhost_nodes() -> (r: Vec<(String, AccountId)>)
    ensures
        r@.len() == 1,
        r@[0].0@ == "127.0.0.1:50211"@,
        r@[0].1 == (AccountId { shard: 0, realm: 0, num: 3 }),
{
    let mut r: Vec<(String, AccountId)> = Vec::new();
    r.push(entry("127.0.0.1:50211", 3));
    r
}

/// The mirror-node address of a public network, or of a local one.
fn mirror(address: &str) -> (r: Vec<String>)
    ensures
        r@.len() == 1,
        r@[0]@ == address@,
{
    let mut r: Vec<String> = Vec::new();
    r.push(address.to_owned());
    r
}

pub fn mainnet_mirror() -> (r: Vec<String>)
    ensures
        r@.len() == 1,
        r@[0]@ == "mainnet-public.mirrornode.hedera.com:443"@,
{
    mirror("mainnet-public.mirrornode.hedera.com:443")
}

pub fn testnet_mirror() -> (r: Vec<String>)
    ensures
        r@.len() == 1,
        r@[0]@ == "testnet.mirrornode.hedera.com:443"@,
{
    mirror("testnet.mirrornode.hedera.com:443")
}

pub fn previewnet_mirror() -> (r: Vec<String>)
    ensures
        r@.len() == 1,
        r@[0]@ == "previewnet.mirrornode.hedera.com:443"@,
{
    mirror("previewnet.mirrornode.hedera.com:443")
}

pub fn localhost_mirror() -> (r: Vec<String>)
    ensures
        r@.len() == 1,
        r@[0]@ == "127.0.0.1:5600"@,
{
    mirror("127.0.0.1:5600")
}

/// How many built-in nodes the public network `name` has.
pub open spec fn builtin_count(name: NetworkName) -> u64 {
    match name {
        NetworkName::Mainnet => 10,
        _ => 7,
    }
}

/// The address of built-in node `0.0.num` of the public network `name`.
pub open spec fn builtin_address(name: NetworkName, num: u64) -> Seq<char> {
    match name {
        NetworkName::Mainnet => mainnet_address(num),
        NetworkName::Testnet => testnet_address(num),
        NetworkName::Previewnet => previewnet_address(num),
    }
}

/// `net` holds exactly the built-in nodes of `name`: accounts `0.0.3` onwards, each with its
/// one built-in address.
pub open spec fn has_builtin_nodes(net: NetworkData, name: NetworkName) -> bool {
    &&& forall|id: AccountId| net.knows(id) <==> (id.shard == 0 && id.realm == 0 && 3 <= id.num < 3 + builtin_count(name))
    &&& forall|i: int| 0 <= i < net.nodes@.len() ==> (#[trigger] net.nodes@[i]).addresses@.len() == 1
        && net.nodes@[i].addresses@[0]@ == builtin_address(name, net.nodes@[i].account_id.num)
}

/// A network built from the built-in book of `name` holds exactly its built-in nodes.
pub proof fn lemma_builtin_nodes(net: NetworkData, book: Seq<(String, AccountId)>, name: NetworkName)
    requires
        book.len() == builtin_count(name),
        forall|k: int| 0 <= k < book.len() ==> (#[trigger] book[k]).1 == (AccountId { shard: 0, realm: 0, num: (k + 3) as u64 })
            && book[k].0@ == builtin_address(name, (k + 3) as u64),
        forall|id: AccountId| net.knows(id) <==> book_names(book, id),
        forall|i: int| 0 <= i < net.nodes@.len()
            ==> (#[trigger] net.nodes@[i]).addresses@ == addresses_for(book, net.nodes@[i].account_id),
    ensures
        has_builtin_nodes(net, name),
{
    assert forall|i: int, j: int| 0 <= i < j < book.len() implies book[i].1 != book[j].1 by {
        assert(book[i].1.num != book[j].1.num);
    }
    assert forall|id: AccountId| net.knows(id) <==> (id.shard == 0 && id.realm == 0 && 3 <= id.num < 3 + builtin_count(name)) by {
        if book_names(book, id) {
            let k = choose|k: int| 0 <= k < book.len() && #[trigger] book[k].1 == id;
            assert(book[k].1 == id);
        }
        if id.shard == 0 && id.realm == 0 && 3 <= id.num < 3 + builtin_count(name) {
            let k = id.num - 3;
            assert(book[k as int].1 == id);
        }
    }
    assert forall|i: int| 0 <= i < net.nodes@.len() implies (#[trigger] net.nodes@[i]).addresses@.len() == 1
        && net.nodes@[i].addresses@[0]@ == builtin_address(name, net.nodes@[i].account_id.num) by {
        let id = net.nodes@[i].account_id;
        assert(net.knows(id));
        let k = choose|k: int| 0 <= k < book.len() && #[trigger] book[k].1 == id;
        lemma_single_address(book, k);
    }
}

} // verus!
