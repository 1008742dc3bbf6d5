use dal_spirits::router::{path_of_hash, HashRouter, Navigation, Route, RouterError};

fn details(name: &str, form: &str) -> Route {
    Route::SpiritDetails { name: name.to_string(), form: form.to_string() }
}

#[test]
fn route_home_for_the_root_path() {
    assert_eq!(Route::match_path("/"), Route::Home);
    assert_eq!(Route::default(), Route::Home);
}

#[test]
fn route_details_for_two_segments() {
    assert_eq!(Route::match_path("/spirits/Tohka/Princess"), details("Tohka", "Princess"));
    assert_eq!(
        Route::match_path("/spirits/Tohka/Princess_AstralDress"),
        details("Tohka", "Princess_AstralDress")
    );
    assert_eq!(Route::match_path("/spirits/a/b"), details("a", "b"));
    assert_eq!(Route::match_path("/spirits/%20x/Élan2"), details("%20x", "Élan2"));
}

#[test]
fn route_home_for_every_other_path() {
    for path in [
        "",
        "//",
        "/spirits",
        "/spirits/",
        "/spirits/Tohka",
        "/spirits/Tohka/",
        "/spirits//Princess",
        "/spirits/Tohka/Princess/",
        "/spirits/Tohka/Princess/more",
        "/spirits/Tohka/Princess?x=1",
        "/spirits/To?hka/Princess",
        "/spirit/Tohka/Princess",
        "spirits/Tohka/Princess",
        "/Spirits/Tohka/Princess",
        "/about",
        "/?x",
        "#/spirits/Tohka/Princess",
    ] {
        assert_eq!(Route::match_path(path), Route::Home, "{}", path);
    }
}

#[test]
fn route_variant_names() {
    assert_eq!(Route::Home.variant_name(), "Home");
    assert_eq!(details("a", "b").variant_name(), "SpiritDetails");
    assert_ne!(details("a", "b"), details("a", "c"));
    assert_ne!(details("a", "b"), Route::Home);
}

#[test]
fn hash_without_its_mark() {
    assert_eq!(path_of_hash("#/spirits/Tohka/Princess"), "/spirits/Tohka/Princess");
    assert_eq!(path_of_hash("#/"), "/");
    assert_eq!(path_of_hash("#"), "");
    assert_eq!(path_of_hash(""), "/");
    assert_eq!(path_of_hash("/spirits/a/b"), "/");
    assert_eq!(path_of_hash("##x"), "#x");
}

#[test]
fn router_is_single() {
    let mut router = HashRouter::new();
    assert!(!router.is_mounted());
    assert_eq!(router.path(), None);
    assert_eq!(router.route(), None);
    assert_eq!(router.mount("#/spirits/Tohka/Princess"), Ok(()));
    assert!(router.is_mounted());
    assert_eq!(router.mount("#/"), Err(RouterError::AlreadyMounted));
    assert_eq!(router.path(), Some("/spirits/Tohka/Princess"));
    assert_eq!(router.route(), Some(details("Tohka", "Princess")));
    router.unmount();
    assert!(!router.is_mounted());
    assert_eq!(router.mount(""), Ok(()));
    assert_eq!(router.path(), Some("/"));
    assert_eq!(router.route(), Some(Route::Home));
}

#[test]
fn router_errors_in_words() {
    assert_eq!(
        RouterError::AlreadyMounted.message(),
        "cannot have more than one HashRouter component"
    );
    assert_eq!(
        RouterError::NotMounted.message(),
        "navigate_replace can only be used with a HashRouter"
    );
}

#[test]
fn router_follows_the_hash() {
    let mut router = HashRouter::new();
    assert!(!router.on_hash_change("#/spirits/a/b"));
    assert_eq!(router.path(), None);
    router.mount("#/").unwrap();
    assert!(router.on_hash_change("#/spirits/a/b"));
    assert_eq!(router.route(), Some(details("a", "b")));
    assert!(!router.on_hash_change("#/spirits/a/b"));
    assert!(router.on_hash_change("#/spirits/a/c"));
    assert!(router.on_hash_change("#/nowhere"));
    assert_eq!(router.path(), Some("/nowhere"));
    assert_eq!(router.route(), Some(Route::Home));
    assert!(!router.on_hash_change(""));
    assert_eq!(router.path(), Some("/"));
}

#[test]
fn navigate_replace_in_place_changes_nothing() {
    let mut router = HashRouter::new();
    router.mount("#/").unwrap();
    assert_eq!(
        router.navigate_replace("/"),
        Ok(Navigation { changed: false, url: "#/".to_string() })
    );
    assert_eq!(router.path(), Some("/"));
    assert_eq!(
        router.navigate_replace("/"),
        Ok(Navigation { changed: false, url: "#/".to_string() })
    );
}

#[test]
fn navigate_replace_sets_the_path() {
    let mut router = HashRouter::new();
    assert_eq!(router.navigate_replace("/"), Err(RouterError::NotMounted));
    assert!(!router.is_mounted());
    router.mount("#/spirits/a/b").unwrap();
    assert_eq!(
        router.navigate_replace("/"),
        Ok(Navigation { changed: true, url: "#/".to_string() })
    );
    assert_eq!(router.route(), Some(Route::Home));
    assert_eq!(
        router.navigate_replace("/spirits/c/d"),
        Ok(Navigation { changed: true, url: "#/spirits/c/d".to_string() })
    );
    assert_eq!(router.path(), Some("/spirits/c/d"));
}
