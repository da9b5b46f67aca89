//! The supported platforms, and the choice among them by the name of the
//! host's operating system.

use vstd::prelude::*;

use crate::android::{android_arguments, android_classification, AndroidParser, AndroidPinger};
use crate::linux::{linux_arguments, linux_classification, LinuxParser, LinuxPinger};
use crate::macos::{macos_arguments, macos_classification, MacOSParser, MacOSPinger};
use crate::model::{PingError, PingResult};
use crate::parser::{plain_arguments, Parser, Pinger};
use crate::text::{chars_of, same_text, texts};
use crate::windows::{windows_classification, WindowsParser, WindowsPinger};

verus! {

/// A family of operating systems whose `ping` tools take the same
/// arguments and print the same grammar.
#[derive(Clone, Copy, Debug, PartialEq, Eq, Structural)]
pub enum Platform {
    Linux,
    MacOS,
    Windows,
    Android,
}

/// `name` is the name of a Linux distribution that ships the iputils
/// `ping`.
pub open spec fn is_linux_name(name: Seq<char>) -> bool {
    ||| name == "Amazon Linux AMI"@
    ||| name == "Arch Linux"@
    ||| name == "CentOS"@
    ||| name == "Debian"@
    ||| name == "EndeavourOS"@
    ||| name == "Fedora"@
    ||| name == "Linux"@
    ||| name == "Manjaro"@
    ||| name == "Linux Mint"@
    ||| name == "openSUSE"@
    ||| name == "Oracle Linux"@
    ||| name == "Red Hat Linux"@
    ||| name == "Red Hat Enterprise Linux"@
    ||| name == "SUSE Linux Enterprise Server"@
    ||| name == "Ubuntu"@
    ||| name == "Pop!_OS"@
    ||| name == "Solus"@
}

/// The platform of the operating system called `name`, if it is a
/// supported one.
pub open spec fn platform_of(name: Seq<char>) -> Option<Platform> {
    if is_linux_name(name) {
        Some(Platform::Linux)
    } else if name == "Mac OS"@ {
        Some(Platform::MacOS)
    } else if name == "Windows"@ {
        Some(Platform::Windows)
    } else if name == "Android"@ {
        Some(Platform::Android)
    } else {
        None
    }
}

/// The arguments that `platform` probes `target` with.
pub open spec fn platform_arguments(platform: Platform, target: Seq<char>) -> Seq<Seq<char>> {
    match platform {
        Platform::Linux => linux_arguments(target),
        Platform::MacOS => macos_arguments(target),
        Platform::Windows => plain_arguments(target),
        Platform::Android => android_arguments(target),
    }
}

/// What `line` reports in the grammar of `platform`.
pub open spec fn platform_classification(platform: Platform, line: Seq<char>) -> Option<
    PingResult,
> {
    match platform {
        Platform::Linux => linux_classification(line),
        Platform::MacOS => macos_classification(line),
        Platform::Windows => windows_classification(line),
        Platform::Android => android_classification(line),
    }
}

/// Whether `name` holds the characters of `word`.
fn is_name(name: &Vec<char>, word: &str) -> (r: bool)
    ensures
        r == (name@ == word@),
{
    same_text(name, &chars_of(word))
}

/// Whether `name` is the name of a Linux distribution that ships the
/// iputils `ping`.
pub fn names_linux(name: &str) -> (r: bool)
    ensures
        r == is_linux_name(name@),
{
    let chars = chars_of(name);
    is_name(&chars, "Amazon Linux AMI") || is_name(&chars, "Arch Linux") || is_name(
        &chars,
        "CentOS",
    ) || is_name(&chars, "Debian") || is_name(&chars, "EndeavourOS") || is_name(&chars, "Fedora")
        || is_name(&chars, "Linux") || is_name(&chars, "Manjaro") || is_name(&chars, "Linux Mint")
        || is_name(&chars, "openSUSE") || is_name(&chars, "Oracle Linux") || is_name(
        &chars,
        "Red Hat Linux",
    ) || is_name(&chars, "Red Hat Enterprise Linux") || is_name(
        &chars,
        "SUSE Linux Enterprise Server",
    ) || is_name(&chars, "Ubuntu") || is_name(&chars, "Pop!_OS") || is_name(&chars, "Solus")
}

impl Platform {
    /// Picks the platform of the operating system called `name`. A name
    /// outside the table is refused, with the name in the error.
    pub fn select(name: &str) -> (r: Result<Platform, PingError>)
        ensures
            match platform_of(name@) {
                Some(p) => r == Ok::<Platform, PingError>(p),
                None => r matches Err(PingError::UnsupportedOS(refused)) && refused@ == name@,
            },
    {
        let chars = chars_of(name);
        if names_linux(name) {
            Ok(Platform::Linux)
        } else if is_name(&chars, "Mac OS") {
            Ok(Platform::MacOS)
        } else if is_name(&chars, "Windows") {
            Ok(Platform::Windows)
        } else if is_name(&chars, "Android") {
            Ok(Platform::Android)
        } else {
            Err(PingError::UnsupportedOS(name.to_owned()))
        }
    }

    /// The arguments to run `ping` with on this platform, for the host
    /// `target`.
    pub fn ping_args(self, target: String) -> (r: Vec<String>)
        ensures
            texts(r@) == platform_arguments(self, target@),
    {
        match self {
            Platform::Linux => LinuxPinger::default().ping_args(target),
            Platform::MacOS => MacOSPinger::default().ping_args(target),
            Platform::Windows => WindowsPinger::default().ping_args(target),
            Platform::Android => AndroidPinger::default().ping_args(target),
        }
    }

    /// Classifies one line of this platform's `ping` output. The result
    /// depends on the platform and the line alone.
    pub fn parse(self, line: String) -> (r: Option<PingResult>)
        ensures
            r == platform_classification(self, line@),
    {
        match self {
            Platform::Linux => LinuxParser::default().parse(line),
            Platform::MacOS => MacOSParser::default().parse(line),
            Platform::Windows => WindowsParser::default().parse(line),
            Platform::Android => AndroidParser::default().parse(line),
        }
    }
}

} // verus!
