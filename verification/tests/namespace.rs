use onda::namespace::{
    create_namespace, puffed_out_string, Namespace, OndaNamespaceError, TreeMarker, MAX_NAME_LENGTH, MAX_URI_LENGTH,
};
use onda::pubkey::Pubkey;

fn key(n: u64) -> Pubkey {
    Pubkey { w0: n, w1: 0, w2: 4, w3: 0 }
}

#[test]
fn puffing_pads_with_nul() {
    let s = puffed_out_string("onda", 8);
    assert_eq!(s, "onda\0\0\0\0");
    assert_eq!(s.len(), 8);
    assert_eq!(puffed_out_string("exact", 5), "exact");
    assert_eq!(puffed_out_string("", 3), "\0\0\0");
    let u = puffed_out_string("é", 4);
    assert_eq!(u.len(), 4);
    assert_eq!(u, "é\0\0");
}

#[test]
fn namespace_for_forum_admin() {
    let mut namespace = None;
    let mut marker = None;
    assert_eq!(
        create_namespace(&mut namespace, &mut marker, key(1), key(2), key(7), key(8), "onda", "https://onda.xyz"),
        Err(OndaNamespaceError::Unauthorized)
    );
    assert!(namespace.is_none() && marker.is_none());
    assert_eq!(
        create_namespace(&mut namespace, &mut marker, key(1), key(1), key(7), key(8), "onda", "https://onda.xyz"),
        Ok(())
    );
    let ns = namespace.clone().unwrap();
    assert_eq!(ns.name.len(), MAX_NAME_LENGTH);
    assert!(ns.name.starts_with("onda\0"));
    assert_eq!(ns.uri.len(), MAX_URI_LENGTH);
    assert!(ns.uri.starts_with("https://onda.xyz\0"));
    assert_eq!(ns.merkle_tree, key(7));
    assert_eq!(marker, Some(TreeMarker { namespace: key(8) }));
}

#[test]
fn tree_names_one_namespace() {
    let mut marker = Some(TreeMarker { namespace: key(8) });
    let mut fresh = None;
    assert_eq!(
        create_namespace(&mut fresh, &mut marker, key(1), key(1), key(7), key(9), "other", "https://x.y"),
        Err(OndaNamespaceError::AlreadyInUse)
    );
    assert!(fresh.is_none());
    let mut no_marker = None;
    let mut taken = Some(Namespace { name: "onda".to_string(), uri: String::new(), merkle_tree: key(3) });
    assert_eq!(
        create_namespace(&mut taken, &mut no_marker, key(1), key(1), key(7), key(9), "onda", "https://x.y"),
        Err(OndaNamespaceError::AlreadyInUse)
    );
    assert!(no_marker.is_none());
}
