//! Names of communities on other servers, and the servers this one
//! follows.

use vstd::prelude::*;
use vstd::string::StringExecFns;
use crate::text::{replace, spec_replace, split_all, split_list, strs, texts};

verus! {

/// The servers whose communities are listed: the federated one, if one is
/// configured, and this one.
pub fn get_following_instances(federated_instance: &Option<String>, hostname: &str) -> (r: Vec<
    String,
>)
    ensures
        texts(r@) == match *federated_instance {
            Some(f) => seq![f@, hostname@],
            None => seq![hostname@],
        },
{
    let mut instance_list: Vec<String> = Vec::new();
    match federated_instance {
        Some(f) => {
            instance_list.push(f.clone());
            instance_list.push(hostname.to_owned());
            assert(texts(instance_list@) =~= seq![f@, hostname@]);
        },
        None => {
            instance_list.push(hostname.to_owned());
            assert(texts(instance_list@) =~= seq![hostname@]);
        },
    }
    instance_list
}

/// The name under which a community is shown: `!name` for one on this
/// server, `!name@instance` for one on another.
pub fn format_community_name(name: &str, instance: &str, hostname: &str) -> (r: String)
    ensures
        r@ == if instance@ == hostname@ {
            "!"@ + name@
        } else {
            "!"@ + name@ + "@"@ + instance@
        },
{
    let mut out = "!".to_owned();
    out.append(name);
    if instance.to_owned() != hostname.to_owned() {
        out.append("@");
        out.append(instance);
    }
    out
}

/// The parts of a community identifier `!name@instance`.
#[derive(Debug)]
pub struct CommunityAddress {
    pub name: String,
    pub instance: String,
}

/// Name and instance that a community identifier names: the identifier
/// is split at every `@`; the first piece, without its exclamation marks,
/// is the name and the second the instance. An identifier without an `@`
/// names nothing.
pub open spec fn spec_parse_address(identifier: Seq<char>) -> Option<(Seq<char>, Seq<char>)> {
    let parts = split_all(identifier, '@');
    if parts.len() < 2 {
        None
    } else {
        Some((spec_replace(parts[0], "!"@, Seq::empty()), parts[1]))
    }
}

impl CommunityAddress {
    /// Reads a community identifier.
    pub fn parse(identifier: &str) -> (r: Option<CommunityAddress>)
        ensures
            match r {
                Some(address) => spec_parse_address(identifier@) == Some(
                    (address.name@, address.instance@),
                ),
                None => spec_parse_address(identifier@).is_none(),
            },
    {
        let parts = split_list(identifier, '@');
        if parts.len() < 2 {
            return None;
        }
        proof {
            reveal_strlit("");
            assert(""@ =~= Seq::<char>::empty());
            assert(strs(parts@)[0] == parts@[0]@);
            assert(strs(parts@)[1] == parts@[1]@);
        }
        Some(CommunityAddress { name: replace(parts[0], "!", ""), instance: parts[1].to_owned() })
    }
}

/// The address a community document is fetched from.
pub fn community_uri(address: &CommunityAddress) -> (r: String)
    ensures
        r@ == "http://"@ + address.instance@ + "/federation/c/"@ + address.name@,
{
    let mut out = "http://".to_owned();
    out.append(address.instance.as_str());
    out.append("/federation/c/");
    out.append(address.name.as_str());
    out
}

/// The address the communities of a server are listed at.
pub fn communities_uri(domain: &str) -> (r: String)
    ensures
        r@ == "http://"@ + domain@ + "/api/v1/communities/list?sort=Hot"@,
{
    let mut out = "http://".to_owned();
    out.append(domain);
    out.append("/api/v1/communities/list?sort=Hot");
    out
}

} // verus!
