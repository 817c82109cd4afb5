//! Starting the browser driver and describing the browser session.

use crate::command::{texts, Command, CommandView};
use crate::text::{decimal, decimal_text};
use rand::RngCore;
use vstd::prelude::*;

verus! {

/// Calls `next_u32` of the generator that `rand::thread_rng` returns. The result is random:
/// nothing is claimed of it.
#[verifier::external_body]
fn random_u32() -> u32 {
    rand::thread_rng().next_u32()
}

/// Calls `next_u64` of the generator that `rand::thread_rng` returns. The result is random:
/// nothing is claimed of it.
#[verifier::external_body]
fn random_u64() -> u64 {
    rand::thread_rng().next_u64()
}

/// The port that a random number stands for: its lower half.
pub fn port_of(random: u32) -> (port: u16)
    ensures
        port == random % 0x10000,
{
    assert((random & 0xffff) as u16 == random % 0x10000) by (bit_vector);
    (random & 0xffff) as u16
}

/// A step in the search for a free port.
#[derive(Debug, Copy, Clone, PartialEq, Eq, Structural)]
pub enum PortSearch {
    /// See whether this port can be bound.
    Try(u16),
    /// This port is free.
    Found(u16),
}

/// The step in the search for a free port that follows when `tried` is the port that was last
/// tried, if any, with whether it could be bound, and `random` is what was drawn. The search ends
/// with the first port that could be bound.
pub open spec fn port_step(tried: Option<(u16, bool)>, random: u32) -> PortSearch {
    match tried {
        Some((port, true)) => PortSearch::Found(port),
        _ => PortSearch::Try((random % 0x10000) as u16),
    }
}

/// The next step in the search for a free port, if `random` is what was drawn.
pub fn next_port(tried: Option<(u16, bool)>, random: u32) -> (step: PortSearch)
    ensures
        step == port_step(tried, random),
{
    match tried {
        Some((port, true)) => PortSearch::Found(port),
        _ => PortSearch::Try(port_of(random)),
    }
}

/// The next step in the search for a free port. A port to try is drawn at random; where the port
/// last tried is free, nothing is drawn.
pub fn find_available_port(tried: Option<(u16, bool)>) -> (step: PortSearch)
    ensures
        exists|random: u32| step == #[trigger] port_step(tried, random),
{
    match tried {
        Some((port, true)) => {
            assert(port_step(tried, 0) == PortSearch::Found(port));
            PortSearch::Found(port)
        },
        _ => next_port(tried, random_u32()),
    }
}

/// The command that starts the driver at `path` and makes it listen on `port`.
pub open spec fn driver_command(path: Seq<char>, port: u16) -> CommandView {
    CommandView { program: path, args: seq!["--port="@ + decimal(port as nat)] }
}

/// The command that starts the driver at `path` and makes it listen on `port`.
pub fn spawn_chromedriver(path: String, port: u16) -> (command: Command)
    ensures
        command@ == driver_command(path@, port),
        command@ == (CommandView {
            program: path@,
            args: seq!["--port="@ + decimal(port as nat)],
        }),
{
    let mut arg = "--port=".to_owned();
    arg.append(decimal_text(port as u64).as_str());
    let mut args: Vec<String> = Vec::new();
    args.push(arg);
    assert(texts(args@) =~= seq!["--port="@ + decimal(port as nat)]);
    Command { program: path, args }
}

/// The host that the driver runs on.
pub const DRIVER_ADDR: &'static str = "http://127.0.0.1";

/// Where the driver that listens on `port` is reached.
fn driver_address(port: u16) -> (address: String)
    ensures
        address@ == DRIVER_ADDR@ + ":"@ + decimal(port as nat),
{
    let mut address = DRIVER_ADDR.to_owned();
    address.append(":");
    address.append(decimal_text(port as u64).as_str());
    address
}

/// The name of the browser profile that a random number stands for: the number in decimal.
pub fn profile_id_of(random: u64) -> (id: String)
    ensures
        id@ == decimal(random as nat),
{
    decimal_text(random)
}

/// The directory, below the working directory, that holds a directory for each profile.
pub const PROFILES_DIR: &'static str = "profiles";

/// The directory, below the working directory, that downloads go to.
pub const DOWNLOAD_DIR: &'static str = "exports";

/// A capability that a browser session is opened with: the arguments the browser is started
/// with, and its preferences, each a key with its value.
#[derive(Debug)]
pub struct Capability {
    pub name: String,
    pub args: Vec<String>,
    pub prefs: Vec<(String, String)>,
}

/// The values in a [`Capability`].
pub struct CapabilityView {
    pub name: Seq<char>,
    pub args: Seq<Seq<char>>,
    pub prefs: Seq<(Seq<char>, Seq<char>)>,
}

impl View for Capability {
    type V = CapabilityView;

    open spec fn view(&self) -> CapabilityView {
        CapabilityView {
            name: self.name@,
            args: texts(self.args@),
            prefs: self.prefs@.map_values(|pref: (String, String)| (pref.0@, pref.1@)),
        }
    }
}

/// The capability for a browser without a window, whose profile is kept in `profile_dir` and
/// stays small, and whose downloads go to `download_dir`.
pub open spec fn browser_capability(
    profile_dir: Seq<char>,
    download_dir: Seq<char>,
) -> CapabilityView {
    CapabilityView {
        name: "goog:chromeOptions"@,
        args: seq![
            "user-data-dir="@ + profile_dir,
            "--headless"@,
            "--disable-gpu"@,
            "--no-sandbox"@,
            "--disable-extensions"@,
            "--disable-dev-shm-usage"@,
            "--media-cache-size=1"@,
            "--disk-cache-size=1"@,
            "--disable-back-forward-cache"@,
            "--disable-gpu-program-cache"@,
            "--disable-gpu-shader-disk-cache"@,
            "--skia-font-cache-limit-mb=1"@,
            "--skia-resource-cache-limit-mb=1"@,
            "--v8-cache-options=none"@,
        ],
        prefs: seq![("download.default_directory"@, download_dir)],
    }
}

/// The capability for a browser without a window, whose profile is kept in `profile_dir` and
/// stays small, and whose downloads go to `download_dir`.
fn new_capability(profile_dir: &str, download_dir: &str) -> (capability: Capability)
    ensures
        capability@ == browser_capability(profile_dir@, download_dir@),
{
    let mut data_dir = "user-data-dir=".to_owned();
    data_dir.append(profile_dir);
    let mut args: Vec<String> = Vec::new();
    args.push(data_dir);
    args.push("--headless".to_owned());
    args.push("--disable-gpu".to_owned());
    args.push("--no-sandbox".to_owned());
    args.push("--disable-extensions".to_owned());
    args.push("--disable-dev-shm-usage".to_owned());
    // disable as much caching as possible to reduce profile size
    args.push("--media-cache-size=1".to_owned());
    args.push("--disk-cache-size=1".to_owned());
    args.push("--disable-back-forward-cache".to_owned());
    args.push("--disable-gpu-program-cache".to_owned());
    args.push("--disable-gpu-shader-disk-cache".to_owned());
    args.push("--skia-font-cache-limit-mb=1".to_owned());
    args.push("--skia-resource-cache-limit-mb=1".to_owned());
    args.push("--v8-cache-options=none".to_owned());
    let mut prefs: Vec<(String, String)> = Vec::new();
    prefs.push(("download.default_directory".to_owned(), download_dir.to_owned()));
    let capability = Capability { name: "goog:chromeOptions".to_owned(), args, prefs };
    assert(capability@.args =~= browser_capability(profile_dir@, download_dir@).args);
    assert(capability@.prefs =~= browser_capability(profile_dir@, download_dir@).prefs);
    capability
}

/// A browser session to be opened.
#[derive(Debug)]
pub struct DriverSession {
    /// Where the driver is reached.
    pub address: String,
    pub capability: Capability,
    /// The page to go to.
    pub page: String,
    /// The name of the browser profile.
    pub profile_id: String,
}

/// The values in a [`DriverSession`].
pub struct SessionView {
    pub address: Seq<char>,
    pub capability: CapabilityView,
    pub page: Seq<char>,
    pub profile_id: Seq<char>,
}

impl View for DriverSession {
    type V = SessionView;

    open spec fn view(&self) -> SessionView {
        SessionView {
            address: self.address@,
            capability: self.capability@,
            page: self.page@,
            profile_id: self.profile_id@,
        }
    }
}

/// The session to open through the driver on `port`, at the page `instance`, with its downloads
/// in `download_dir`. Its profile is named by the number `random`; `profiles_dir` is what stands
/// before that name in the path of the profile.
pub open spec fn driver_session(
    instance: Seq<char>,
    port: u16,
    profiles_dir: Seq<char>,
    download_dir: Seq<char>,
    random: u64,
) -> SessionView {
    SessionView {
        address: DRIVER_ADDR@ + ":"@ + decimal(port as nat),
        capability: browser_capability(profiles_dir + decimal(random as nat), download_dir),
        page: instance,
        profile_id: decimal(random as nat),
    }
}

/// The session to open if `random` is what was drawn; see [`driver_session`].
pub fn session_of(
    instance: String,
    port: u16,
    profiles_dir: &str,
    download_dir: &str,
    random: u64,
) -> (session: DriverSession)
    ensures
        session@ == driver_session(instance@, port, profiles_dir@, download_dir@, random),
{
    let profile_id = profile_id_of(random);
    let mut profile_dir = profiles_dir.to_owned();
    profile_dir.append(profile_id.as_str());
    DriverSession {
        address: driver_address(port),
        capability: new_capability(profile_dir.as_str(), download_dir),
        page: instance,
        profile_id,
    }
}

/// The session to open, under a profile that is named at random; see [`driver_session`].
pub fn new_driver(
    instance: String,
    port: u16,
    profiles_dir: &str,
    download_dir: &str,
) -> (session: DriverSession)
    ensures
        exists|random: u64|
            session@ == #[trigger] driver_session(
                instance@,
                port,
                profiles_dir@,
                download_dir@,
                random,
            ),
{
    let random: u64 = random_u64();
    session_of(instance, port, profiles_dir, download_dir, random)
}

} // verus!
