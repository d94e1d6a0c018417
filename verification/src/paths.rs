use vstd::prelude::*;
use crate::error::Error;
use crate::peer_id::{PeerId, is_base58_char, peer_id_base58};

verus! {

/// A single relative path component of plain characters (ASCII letters and
/// digits, `-`, `_` and `.`), not made of dots alone.
pub open spec fn is_plain_name(s: Seq<char>) -> bool {
    &&& s.len() > 0
    &&& forall|i: int| 0 <= i < s.len() ==> is_plain_char(#[trigger] s[i])
    &&& exists|i: int| 0 <= i < s.len() && #[trigger] s[i] != '.'
}

pub open spec fn is_plain_char(c: char) -> bool {
    ||| ('0' <= c && c <= '9')
    ||| ('A' <= c && c <= 'Z')
    ||| ('a' <= c && c <= 'z')
    ||| c == '-'
    ||| c == '_'
    ||| c == '.'
}

/// A path separator: `/`, or `\` on Windows.
pub open spec fn is_separator(c: char) -> bool {
    c == '/' || c == '\\'
}

/// A path that may start with a Windows verbatim prefix (`\\?\`), under which
/// joining rebuilds and normalizes the whole path.
pub open spec fn may_be_verbatim(p: Seq<char>) -> bool {
    p.len() >= 3 && is_separator(p[0]) && is_separator(p[1]) && p[2] == '?'
}

/// A path to which a relative name is adjoined after a separator: one that is
/// not empty and ends in neither a separator nor `:` (as a drive `C:` does).
pub open spec fn needs_separator(p: Seq<char>) -> bool {
    p.len() > 0 && !is_separator(p.last()) && p.last() != ':'
}

/// `joined` is `base` with the plain name `part` adjoined: after one separator
/// when the base needs one; otherwise directly or after one separator.
pub open spec fn is_path_join(joined: Seq<char>, base: Seq<char>, part: Seq<char>) -> bool {
    ||| (joined == base + seq!['/'] + part)
    ||| (joined == base + seq!['\\'] + part)
    ||| (!needs_separator(base) && joined == base + part)
}

/// Calls `std::path::Path::join` with a plain relative name and returns the joined
/// path as text. Claimed, as `PathBuf::push` documents it: a relative path is
/// adjoined with a separator, except after a base that already ends in one (or,
/// on Windows, after a bare drive such as `C:`). Which separator is used depends
/// on the platform and is not stated; nor is anything stated of a base with a
/// verbatim prefix, under which the whole path is normalized.
#[verifier::external_body]
fn path_join(base: &str, part: &str) -> (r: String)
    requires
        is_plain_name(part@),
    ensures
        !may_be_verbatim(base@) ==> is_path_join(r@, base@, part@),
{
    std::path::Path::new(base).join(part).to_string_lossy().into_owned()
}

/// Base-58 text is a plain name.
proof fn lemma_base58_is_plain(s: Seq<char>)
    requires
        s.len() > 0,
        forall|i: int| 0 <= i < s.len() ==> is_base58_char(#[trigger] s[i]),
    ensures
        is_plain_name(s),
{
    assert(is_base58_char(s[0]));
    assert(forall|i: int| 0 <= i < s.len() ==> is_plain_char(#[trigger] s[i])) by {
        assert forall|i: int| 0 <= i < s.len() implies is_plain_char(#[trigger] s[i]) by {
            assert(is_base58_char(s[i]));
        }
    }
}

/// Adjoining a plain name to a path without a verbatim prefix gives a path
/// without one, after which the next name is adjoined with a separator.
proof fn lemma_join_shape(joined: Seq<char>, base: Seq<char>, part: Seq<char>)
    requires
        !may_be_verbatim(base),
        is_plain_name(part),
        is_path_join(joined, base, part),
    ensures
        !may_be_verbatim(joined),
        needs_separator(joined),
{
    let k = joined.len() - part.len();
    assert(joined.subrange(k, joined.len() as int) =~= part);
    assert(joined.last() == part.last());
    assert(is_plain_char(part[part.len() - 1]));
    if joined.len() >= 3 && joined[2] == '?' {
        if base.len() >= 3 {
            assert(joined[0] == base[0] && joined[1] == base[1] && joined[2] == base[2]);
        } else {
            assert(2 >= base.len());
            if 2 >= k {
                assert(joined[2] == part[2 - k]);
                assert(is_plain_char(part[2 - k]));
            }
        }
    }
}

/// The directory of the node with this id under the data directory:
/// `<data dir>/safe/node/<peer id>`.
pub open spec fn is_node_root_dir(dir: Seq<char>, data_dir: Seq<char>, peer: Seq<u8>) -> bool {
    exists|safe: Seq<char>, node: Seq<char>|
        is_path_join(safe, data_dir, "safe"@) && is_path_join(node, safe, "node"@) && is_path_join(
            dir,
            node,
            peer_id_base58(peer),
        )
}

/// The literals this module adjoins are plain names.
proof fn lemma_literals_are_plain()
    ensures
        is_plain_name("safe"@),
        is_plain_name("node"@),
        is_plain_name("secret-key"@),
        is_plain_name("safenode.pid"@),
        is_plain_name("logs"@),
        is_plain_name("local_node_registry.json"@),
{
    reveal_strlit("safe");
    reveal_strlit("node");
    reveal_strlit("secret-key");
    reveal_strlit("safenode.pid");
    reveal_strlit("logs");
    reveal_strlit("local_node_registry.json");
    assert("safe"@[0] != '.');
    assert("node"@[0] != '.');
    assert("secret-key"@[0] != '.');
    assert("safenode.pid"@[0] != '.');
    assert("logs"@[0] != '.');
    assert("local_node_registry.json"@[0] != '.');
}

/// The node's root directory, `<data dir>/safe/node/<peer id>` (each name after a
/// separator when the data directory ends in none); without a data directory,
/// the error that none could be obtained. The directory ends in the id, so a
/// name adjoined to it comes after a separator.
pub fn get_root_dir(data_dir: Option<&str>, peer_id: &PeerId) -> (r: Result<String, Error>)
    ensures
        match data_dir {
            None => r matches Err(Error::RootDirectoryNotObtainable),
            Some(d) => r matches Ok(dir) && (!may_be_verbatim(d@) ==> is_node_root_dir(
                dir@,
                d@,
                peer_id@,
            ) && !may_be_verbatim(dir@) && needs_separator(dir@)),
        },
{
    match data_dir {
        None => Err(Error::RootDirectoryNotObtainable),
        Some(d) => {
            proof {
                lemma_literals_are_plain();
            }
            let safe = path_join(d, "safe");
            let node = path_join(safe.as_str(), "node");
            let b58 = peer_id.to_base58();
            proof {
                lemma_base58_is_plain(b58@);
            }
            let dir = path_join(node.as_str(), b58.as_str());
            proof {
                if !may_be_verbatim(d@) {
                    lemma_join_shape(safe@, d@, "safe"@);
                    lemma_join_shape(node@, safe@, "node"@);
                    lemma_join_shape(dir@, node@, b58@);
                    assert(is_path_join(safe@, d@, "safe"@) && is_path_join(node@, safe@, "node"@)
                        && is_path_join(dir@, node@, peer_id_base58(peer_id@)));
                }
            }
            Ok(dir)
        },
    }
}

/// The file that stores the node's secret key, inside its root directory.
pub fn secret_key_path(root_dir: &str) -> (r: String)
    ensures
        !may_be_verbatim(root_dir@) ==> is_path_join(r@, root_dir@, "secret-key"@),
{
    proof {
        lemma_literals_are_plain();
    }
    path_join(root_dir, "secret-key")
}

/// The file that stores the node's process id, inside its root directory.
pub fn pid_file_path(root_dir: &str) -> (r: String)
    ensures
        !may_be_verbatim(root_dir@) ==> is_path_join(r@, root_dir@, "safenode.pid"@),
{
    proof {
        lemma_literals_are_plain();
    }
    path_join(root_dir, "safenode.pid")
}

/// The directory of the node's log files, inside its root directory.
pub fn logs_dir_path(root_dir: &str) -> (r: String)
    ensures
        !may_be_verbatim(root_dir@) ==> is_path_join(r@, root_dir@, "logs"@),
{
    proof {
        lemma_literals_are_plain();
    }
    path_join(root_dir, "logs")
}

/// Where the registry of a local network is kept:
/// `<data dir>/safe/local_node_registry.json`; without a data directory, the
/// error that none could be obtained.
pub fn get_local_node_registry_path(data_dir: Option<&str>) -> (r: Result<String, Error>)
    ensures
        match data_dir {
            None => r matches Err(Error::UserDataDirectoryNotObtainable),
            Some(d) => r matches Ok(p) && (!may_be_verbatim(d@) ==> exists|safe: Seq<char>|
                is_path_join(safe, d@, "safe"@) && is_path_join(
                    p@,
                    safe,
                    "local_node_registry.json"@,
                )),
        },
{
    match data_dir {
        None => Err(Error::UserDataDirectoryNotObtainable),
        Some(d) => {
            proof {
                lemma_literals_are_plain();
            }
            let safe = path_join(d, "safe");
            let p = path_join(safe.as_str(), "local_node_registry.json");
            proof {
                if !may_be_verbatim(d@) {
                    lemma_join_shape(safe@, d@, "safe"@);
                    assert(is_path_join(safe@, d@, "safe"@) && is_path_join(
                        p@,
                        safe@,
                        "local_node_registry.json"@,
                    ));
                }
            }
            Ok(p)
        },
    }
}

} // verus!
