//! Tests of the path sandbox: joining, containment, parents, base names.

use ftp_server::path::{base_name, check_under_root, join_candidate, parent_of, PathError};

#[test]
fn descendant_is_accepted_with_its_relative_path() {
    let root = b"/srv/root".to_vec();
    let canon = b"/srv/root/sub".to_vec();
    assert_eq!(check_under_root(&root, &canon), Ok(b"/sub".to_vec()));
}

#[test]
fn root_itself_is_accepted() {
    let root = b"/srv/root".to_vec();
    let canon = b"/srv/root".to_vec();
    assert_eq!(check_under_root(&root, &canon), Ok(b"/".to_vec()));
}

#[test]
fn sibling_sharing_a_prefix_is_rejected() {
    let root = b"/srv/root".to_vec();
    let canon = b"/srv/root-backup".to_vec();
    assert_eq!(check_under_root(&root, &canon), Err(PathError::OutsideRoot));
}

#[test]
fn escape_to_another_tree_is_rejected() {
    let root = b"/srv/root".to_vec();
    assert_eq!(check_under_root(&root, &b"/etc".to_vec()), Err(PathError::OutsideRoot));
    assert_eq!(check_under_root(&root, &b"/srv".to_vec()), Err(PathError::OutsideRoot));
    assert_eq!(check_under_root(&root, &b"/".to_vec()), Err(PathError::OutsideRoot));
}

#[test]
fn filesystem_root_as_server_root_accepts_rooted_paths() {
    let root = b"/".to_vec();
    assert_eq!(check_under_root(&root, &b"/etc".to_vec()), Ok(b"/etc".to_vec()));
    assert_eq!(check_under_root(&root, &b"/".to_vec()), Ok(b"/".to_vec()));
    assert_eq!(check_under_root(&root, &b"etc".to_vec()), Err(PathError::OutsideRoot));
}

#[test]
fn join_keeps_rooted_requests_and_joins_relative_ones() {
    assert_eq!(join_candidate(&b"/a".to_vec(), &b"/abs".to_vec()), b"/abs".to_vec());
    assert_eq!(join_candidate(&b"/a".to_vec(), &b"b".to_vec()), b"/a/b".to_vec());
    assert_eq!(join_candidate(&b"/".to_vec(), &b"b".to_vec()), b"/b".to_vec());
}

#[test]
fn join_passes_traversal_to_the_canonicalizer() {
    // The join itself is lexical; `..` is settled by canonicalization and
    // the containment check, never by string surgery.
    assert_eq!(
        join_candidate(&b"/".to_vec(), &b"../../etc".to_vec()),
        b"/../../etc".to_vec()
    );
}

#[test]
fn parent_walks_up_and_stops_at_root() {
    assert_eq!(parent_of(&b"/a/b".to_vec()), b"/a".to_vec());
    assert_eq!(parent_of(&b"/a".to_vec()), b"/".to_vec());
    assert_eq!(parent_of(&b"/".to_vec()), b"/".to_vec());
}

#[test]
fn base_name_takes_everything_after_the_last_slash() {
    assert_eq!(base_name(&b"/a/b.txt".to_vec()), b"b.txt".to_vec());
    assert_eq!(base_name(&b"plain".to_vec()), b"plain".to_vec());
    assert_eq!(base_name(&b"/a/".to_vec()), b"".to_vec());
}
