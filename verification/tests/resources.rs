use servo_gtk::resources::{filename, Resource, RESOURCES_DIR};

fn resources() -> Vec<(Resource, &'static str)> {
    vec![
        (Resource::Preferences, "prefs.json"),
        (Resource::BluetoothBlocklist, "gatt_blocklist.txt"),
        (Resource::DomainList, "public_domains.txt"),
        (Resource::HstsPreloadList, "hsts_preload.json"),
        (Resource::SSLCertificates, "certs"),
        (Resource::BadCertHTML, "badcert.html"),
        (Resource::NetErrorHTML, "neterror.html"),
        (Resource::UserAgentCSS, "user-agent.css"),
        (Resource::ServoCSS, "servo.css"),
        (Resource::PresentationalHintsCSS, "presentational-hints.css"),
        (Resource::QuirksModeCSS, "quirks-mode.css"),
        (Resource::RippyPNG, "rippy.png"),
    ]
}

#[test]
fn filename_of_every_resource() {
    let resources = resources();
    assert_eq!(resources.len(), 12);
    for (resource, name) in resources {
        assert_eq!(filename(resource), name);
    }
}

#[test]
fn filenames_are_distinct() {
    let resources = resources();
    for first in &resources {
        for second in &resources {
            assert_eq!(filename(first.0) == filename(second.0), first.0 == second.0);
        }
    }
}

#[test]
fn resources_directory_is_named_resources() {
    assert_eq!(RESOURCES_DIR, "resources");
}
