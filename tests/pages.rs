use request_edge::auth::{IdentityRecord, Session};
use request_edge::template::{initials, Auth, ContentMode, Section, Template, SITE_NAME};

fn session(is_admin: bool) -> Session {
    Session::new(
        "tok".to_string(),
        IdentityRecord {
            id: "user:7".to_string(),
            is_admin,
            first_name: "linus".to_string(),
            last_name: "torvalds".to_string(),
            email: "l@example.com".to_string(),
        },
    )
}

#[test]
fn section_paths_and_labels() {
    assert_eq!(Section::Admin.map_path(), "/admin");
    assert_eq!(Section::Home.map_path(), "/");
    assert_eq!(Section::About.map_path(), "/about");
    assert_eq!(Section::Other.map_path(), "/other");
    assert_eq!(Section::Home.label(), "Home");
    assert_eq!(Section::Admin.label(), "Admin");
}

#[test]
fn navigation_lists_admin_last_and_only_for_admins() {
    let public = vec![Section::Home, Section::About, Section::Other];
    assert_eq!(Section::navigation(&Auth::Guest), public);
    assert_eq!(Section::navigation(&Auth::User(session(false))), public);
    let mut admin = public.clone();
    admin.push(Section::Admin);
    assert_eq!(Section::navigation(&Auth::Admin(session(true))), admin);
}

#[test]
fn auth_from_session() {
    assert_eq!(Auth::from(None), Auth::Guest);
    assert_eq!(Auth::from(Some(session(false))), Auth::User(session(false)));
    assert_eq!(Auth::from(Some(session(true))), Auth::Admin(session(true)));
}

#[test]
fn embedded_template_for_fragment_loader() {
    let t = Template::embedded("/about");
    assert_eq!(t.title(), "AOx0 - /about");
    assert_eq!(SITE_NAME, "AOx0");
    assert!(matches!(t.mode(), ContentMode::Embedded));
    assert_eq!(t.auth(), &Auth::Guest);
    assert!(!t.is_admin());
}

#[test]
fn full_template_for_admin() {
    let mut t = Template::full("/admin", Some(session(true)));
    assert!(matches!(t.mode(), ContentMode::Full));
    assert!(t.is_admin());
    t.set_title("Panel");
    assert_eq!(t.title(), "Panel");
    assert!(t.is_admin());
}

#[test]
fn initials_are_upper_cased_first_letters() {
    assert_eq!(initials("linus", "torvalds"), "LT");
    assert_eq!(initials("émile", "zola"), "ÉZ");
    assert_eq!(initials("", "x"), "X");
    assert_eq!(initials("", ""), "");
}
