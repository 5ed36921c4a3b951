use cfgtool::path::{bytes_eq, component_is_normal, copy_bytes, FilePath};

fn path(parts: &[&str]) -> FilePath {
    FilePath::new(parts.iter().map(|p| p.as_bytes().to_vec()).collect())
}

#[test]
fn bytes_are_compared_by_content() {
    assert!(bytes_eq(&b"alias ll".to_vec(), &b"alias ll".to_vec()));
    assert!(!bytes_eq(&b"alias ll".to_vec(), &b"alias la".to_vec()));
    assert!(!bytes_eq(&b"alias".to_vec(), &b"alias ll".to_vec()));
    assert!(bytes_eq(&Vec::new(), &Vec::new()));
}

#[test]
fn copy_of_bytes_holds_the_same_bytes() {
    assert_eq!(copy_bytes(&b"\x00\xff/".to_vec()), b"\x00\xff/".to_vec());
}

#[test]
fn normal_components_name_directory_entries() {
    assert!(component_is_normal(&b".bashrc".to_vec()));
    assert!(component_is_normal(&b"...".to_vec()));
    assert!(component_is_normal(&b".a".to_vec()));
    assert!(!component_is_normal(&b"".to_vec()));
    assert!(!component_is_normal(&b".".to_vec()));
    assert!(!component_is_normal(&b"..".to_vec()));
    assert!(!component_is_normal(&b"a/b".to_vec()));
    assert!(!component_is_normal(&b"/".to_vec()));
}

#[test]
fn canonical_paths_are_absolute_and_without_dots() {
    assert!(path(&["/", "home", "u", ".bashrc"]).is_canonical());
    assert!(path(&["/"]).is_canonical());
    assert!(!path(&[]).is_canonical());
    assert!(!path(&["home", "u"]).is_canonical());
    assert!(!path(&["/", "home", "..", "u"]).is_canonical());
    assert!(!path(&["/", "home", ".", "u"]).is_canonical());
    assert!(!path(&["/", "home", "", "u"]).is_canonical());
    assert!(!path(&["/", "home/u"]).is_canonical());
    assert!(!path(&["/", "/", "home"]).is_canonical());
    assert!(!path(&["//", "home"]).is_canonical());
}

#[test]
fn below_means_strictly_below() {
    let home = path(&["/", "home", "u"]);
    assert!(path(&["/", "home", "u", ".bashrc"]).is_below(&home));
    assert!(path(&["/", "home", "u", ".config", "nvim"]).is_below(&home));
    assert!(!home.is_below(&home));
    assert!(!path(&["/", "home"]).is_below(&home));
    assert!(!path(&["/", "home", "user", ".bashrc"]).is_below(&home));
    assert!(!path(&["/", "etc", "u", ".bashrc"]).is_below(&home));
    assert!(path(&["/"]).is_below(&path(&[])));
}

#[test]
fn same_as_compares_components() {
    assert!(path(&["/", "a", "b"]).same_as(&path(&["/", "a", "b"])));
    assert!(!path(&["/", "a", "b"]).same_as(&path(&["/", "a"])));
    assert!(!path(&["/", "a", "b"]).same_as(&path(&["/", "a", "c"])));
    assert!(!path(&["/", "a/b"]).same_as(&path(&["/", "a", "b"])));
    assert!(path(&[]).same_as(&path(&[])));
}

#[test]
fn clone_keeps_the_components() {
    let p = path(&["/", "home", "u", ".bashrc"]);
    assert_eq!(p.clone(), p);
}

#[test]
fn join_appends_the_components() {
    assert_eq!(
        path(&["/", "srv", "repo"]).join(&path(&[".config", "nvim", "init.lua"])),
        path(&["/", "srv", "repo", ".config", "nvim", "init.lua"])
    );
    assert_eq!(path(&["/", "srv"]).join(&path(&[])), path(&["/", "srv"]));
    assert_eq!(path(&[]).join(&path(&["a"])), path(&["a"]));
}

#[test]
fn skip_drops_leading_components() {
    let p = path(&["/", "home", "u", ".bashrc"]);
    assert_eq!(p.skip(0), p);
    assert_eq!(p.skip(3), path(&[".bashrc"]));
    assert_eq!(p.skip(4), path(&[]));
    assert_eq!(p.skip(9), path(&[]));
}

#[test]
fn parent_drops_the_last_component() {
    assert_eq!(
        path(&["/", "srv", "repo", ".config", "init.lua"]).parent(),
        path(&["/", "srv", "repo", ".config"])
    );
    assert_eq!(path(&["/"]).parent(), path(&[]));
    assert_eq!(path(&[]).parent(), path(&[]));
}

#[test]
fn index_entry_is_split_at_every_slash() {
    let entry = b".config/nvim/init.lua".to_vec();
    assert_eq!(FilePath::from_index_entry(&entry), path(&[".config", "nvim", "init.lua"]));
    assert_eq!(FilePath::from_index_entry(&b".bashrc".to_vec()), path(&[".bashrc"]));
}

#[test]
fn index_entry_edge_cases_keep_empty_components() {
    assert_eq!(FilePath::from_index_entry(&b"".to_vec()), path(&[""]));
    assert_eq!(FilePath::from_index_entry(&b"/".to_vec()), path(&["", ""]));
    assert_eq!(FilePath::from_index_entry(&b"a//b".to_vec()), path(&["a", "", "b"]));
    assert_eq!(FilePath::from_index_entry(&b"a/".to_vec()), path(&["a", ""]));
    assert_eq!(FilePath::from_index_entry(&b"/a".to_vec()), path(&["", "a"]));
}

#[test]
fn index_entry_is_joined_with_slashes() {
    assert_eq!(
        path(&[".config", "nvim", "init.lua"]).to_index_entry(),
        b".config/nvim/init.lua".to_vec()
    );
    assert_eq!(path(&[".bashrc"]).to_index_entry(), b".bashrc".to_vec());
    assert_eq!(path(&[]).to_index_entry(), b"".to_vec());
    assert_eq!(path(&["a", "", "b"]).to_index_entry(), b"a//b".to_vec());
}

#[test]
fn split_and_join_are_inverse_on_index_entries() {
    for entry in [&b"a/b/c"[..], b"", b"/", b"x", b"a//", b".config/a b/\xff"] {
        let entry = entry.to_vec();
        assert_eq!(FilePath::from_index_entry(&entry).to_index_entry(), entry);
    }
    for parts in [&[".bashrc"][..], &[".config", "nvim", "init.lua"], &["a", "", ""]] {
        let p = path(parts);
        assert_eq!(FilePath::from_index_entry(&p.to_index_entry()), p);
    }
}
