//! The id-to-session table: connect, disconnect, disconnect_all, status.

use tunnel_supervisor::locate::candidate_paths;
use tunnel_supervisor::locate::select_first;
use tunnel_supervisor::registry::CloudflareManager;

#[test]
fn connecting_the_same_id_twice_replaces_the_session() {
    let mut m: CloudflareManager<u32> = CloudflareManager::new();
    let id = String::from("tunnel-a");
    assert_eq!(m.connect(&id, 1), None);
    // The second connect for the same id hands back the old session's
    // handle: the table never holds two sessions for one id.
    assert_eq!(m.connect(&id, 2), Some(1));
    assert_eq!(m.disconnect(&id), Some(2));
    assert_eq!(m.disconnect(&id), None);
}

#[test]
fn disconnect_on_an_absent_id_is_a_no_op() {
    let mut m: CloudflareManager<u32> = CloudflareManager::new();
    let absent = String::from("nobody");
    assert_eq!(m.disconnect(&absent), None);
    let id = String::from("tunnel-a");
    let _ = m.connect(&id, 7);
    assert_eq!(m.disconnect(&absent), None);
    assert_eq!(m.get_status(&id), "active");
}

#[test]
fn get_status_reflects_presence_only() {
    let mut m: CloudflareManager<u32> = CloudflareManager::new();
    let a = String::from("a");
    let b = String::from("b");
    assert_eq!(m.get_status(&a), "inactive");
    let _ = m.connect(&a, 1);
    assert_eq!(m.get_status(&a), "active");
    assert_eq!(m.get_status(&b), "inactive");
    let _ = m.disconnect(&a);
    assert_eq!(m.get_status(&a), "inactive");
}

#[test]
fn disconnect_all_returns_every_handle_and_clears_the_table() {
    let mut m: CloudflareManager<u32> = CloudflareManager::new();
    let ids = ["a", "b", "c"];
    for (i, id) in ids.iter().enumerate() {
        let _ = m.connect(&String::from(*id), i as u32);
    }
    let handles = m.disconnect_all();
    assert_eq!(handles, vec![0, 1, 2]);
    for id in ids {
        assert_eq!(m.get_status(&String::from(id)), "inactive");
    }
}

#[test]
fn disconnecting_one_id_leaves_the_others_alone() {
    let mut m: CloudflareManager<u32> = CloudflareManager::new();
    let a = String::from("a");
    let b = String::from("b");
    let _ = m.connect(&a, 1);
    let _ = m.connect(&b, 2);
    assert_eq!(m.disconnect(&a), Some(1));
    assert_eq!(m.get_status(&b), "active");
}

#[test]
fn candidate_list_is_in_priority_order() {
    let paths = candidate_paths(b"/home/me");
    assert_eq!(paths.len(), 9);
    assert_eq!(paths[0], b"cloudflared".to_vec());
    assert_eq!(paths[1], b"/opt/homebrew/bin/cloudflared".to_vec());
    assert_eq!(paths[2], b"/usr/local/bin/cloudflared".to_vec());
    assert_eq!(paths[3], b"/usr/bin/cloudflared".to_vec());
    assert_eq!(paths[4], b"/usr/local/bin/cloudflared".to_vec());
    assert_eq!(paths[5], b"/snap/bin/cloudflared".to_vec());
    assert_eq!(paths[6], b"C:\\Program Files\\cloudflared\\cloudflared.exe".to_vec());
    assert_eq!(paths[7], b"C:\\Program Files (x86)\\cloudflared\\cloudflared.exe".to_vec());
    assert_eq!(paths[8], b"/home/me/.local/bin/cloudflared".to_vec());
}

#[test]
fn candidate_list_with_no_home_uses_a_bare_suffix() {
    let paths = candidate_paths(b"");
    assert_eq!(paths[8], b"/.local/bin/cloudflared".to_vec());
}

#[test]
fn the_first_existing_candidate_wins() {
    assert_eq!(select_first(&vec![false, false, true, true]), Some(2));
    assert_eq!(select_first(&vec![true]), Some(0));
    assert_eq!(select_first(&vec![false, false]), None);
    assert_eq!(select_first(&vec![]), None);
}
