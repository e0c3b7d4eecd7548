use vstd::prelude::*;

verus! {

/// The fixed page from which the external tool can be installed by
/// hand.
pub fn download_url() -> (r: String)
    ensures
        r@ == "https://ollama.com/download"@,
{
    String::from_str("https://ollama.com/download")
}

/// Relies on opener::open: asks the operating system to open `url`
/// with its default handler (the browser, for a URL). Whether anything
/// actually opened depends on the machine, so nothing is promised of
/// the outcome.
#[verifier::external_body]
fn open_in_default_handler(url: &str) -> (r: bool) {
    opener::open(url).is_ok()
}

/// The installer launcher: opens the tool's download page in the
/// user's default browser and reports success to the caller whether or
/// not the page actually opened — the open failure is deliberately
/// discarded.
pub fn install_ollama() -> (r: bool)
    ensures
        r == true,
{
    let url = download_url();
    let _opened = open_in_default_handler(url.as_str());
    true
}

} // verus!
