//! The files that the engine asks its host for.

use vstd::prelude::*;

verus! {

/// A file of the engine's resources.
#[derive(Clone, Copy, Debug, PartialEq, Eq, Structural)]
pub enum Resource {
    Preferences,
    BluetoothBlocklist,
    DomainList,
    HstsPreloadList,
    SSLCertificates,
    BadCertHTML,
    NetErrorHTML,
    UserAgentCSS,
    ServoCSS,
    PresentationalHintsCSS,
    QuirksModeCSS,
    RippyPNG,
}

/// The name of the directory, below the working directory, that holds the
/// engine's resources.
pub const RESOURCES_DIR: &'static str = "resources";

/// The name of a resource's file in the resources directory.
pub open spec fn filename_of(file: Resource) -> Seq<char> {
    match file {
        Resource::Preferences => "prefs.json"@,
        Resource::BluetoothBlocklist => "gatt_blocklist.txt"@,
        Resource::DomainList => "public_domains.txt"@,
        Resource::HstsPreloadList => "hsts_preload.json"@,
        Resource::SSLCertificates => "certs"@,
        Resource::BadCertHTML => "badcert.html"@,
        Resource::NetErrorHTML => "neterror.html"@,
        Resource::UserAgentCSS => "user-agent.css"@,
        Resource::ServoCSS => "servo.css"@,
        Resource::PresentationalHintsCSS => "presentational-hints.css"@,
        Resource::QuirksModeCSS => "quirks-mode.css"@,
        Resource::RippyPNG => "rippy.png"@,
    }
}

/// Gives the name of a resource's file in the resources directory.
pub fn filename(file: Resource) -> (name: &'static str)
    ensures
        name@ == filename_of(file),
{
    match file {
        Resource::Preferences => "prefs.json",
        Resource::BluetoothBlocklist => "gatt_blocklist.txt",
        Resource::DomainList => "public_domains.txt",
        Resource::HstsPreloadList => "hsts_preload.json",
        Resource::SSLCertificates => "certs",
        Resource::BadCertHTML => "badcert.html",
        Resource::NetErrorHTML => "neterror.html",
        Resource::UserAgentCSS => "user-agent.css",
        Resource::ServoCSS => "servo.css",
        Resource::PresentationalHintsCSS => "presentational-hints.css",
        Resource::QuirksModeCSS => "quirks-mode.css",
        Resource::RippyPNG => "rippy.png",
    }
}

/// No two resources share a file.
pub proof fn lemma_filenames_distinct(first: Resource, second: Resource)
    requires
        filename_of(first) == filename_of(second),
    ensures
        first == second,
{
    reveal_strlit("prefs.json");
    reveal_strlit("gatt_blocklist.txt");
    reveal_strlit("public_domains.txt");
    reveal_strlit("hsts_preload.json");
    reveal_strlit("certs");
    reveal_strlit("badcert.html");
    reveal_strlit("neterror.html");
    reveal_strlit("user-agent.css");
    reveal_strlit("servo.css");
    reveal_strlit("presentational-hints.css");
    reveal_strlit("quirks-mode.css");
    reveal_strlit("rippy.png");
    assert("prefs.json"@.len() == 10 && "prefs.json"@[0] == 'p');
    assert("gatt_blocklist.txt"@.len() == 18 && "gatt_blocklist.txt"@[0] == 'g');
    assert("public_domains.txt"@.len() == 18 && "public_domains.txt"@[0] == 'p');
    assert("hsts_preload.json"@.len() == 17 && "hsts_preload.json"@[0] == 'h');
    assert("certs"@.len() == 5 && "certs"@[0] == 'c');
    assert("badcert.html"@.len() == 12 && "badcert.html"@[0] == 'b');
    assert("neterror.html"@.len() == 13 && "neterror.html"@[0] == 'n');
    assert("user-agent.css"@.len() == 14 && "user-agent.css"@[0] == 'u');
    assert("servo.css"@.len() == 9 && "servo.css"@[0] == 's');
    assert("presentational-hints.css"@.len() == 24 && "presentational-hints.css"@[0] == 'p');
    assert("quirks-mode.css"@.len() == 15 && "quirks-mode.css"@[0] == 'q');
    assert("rippy.png"@.len() == 9 && "rippy.png"@[0] == 'r');
}

} // verus!
