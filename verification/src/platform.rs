//! Which agent binary belongs to which machine, and what it takes to install it.

use vstd::prelude::*;
use vstd::string::*;
use crate::client::Ngrok;
use crate::error::{ClientError, ClientErrorView};
use crate::text::same_text;

verus! {

pub const NGROK_WIN64: &'static str =
    "https://bin.equinox.io/c/4VmDzA7iaHb/ngrok-stable-windows-amd64.zip";

pub const NGROK_WIN32: &'static str =
    "https://bin.equinox.io/c/4VmDzA7iaHb/ngrok-stable-windows-386.zip";

pub const NGROK_MACOS: &'static str =
    "https://bin.equinox.io/c/4VmDzA7iaHb/ngrok-stable-darwin-amd64.zip";

pub const NGROK_LINUX: &'static str =
    "https://bin.equinox.io/c/4VmDzA7iaHb/ngrok-stable-linux-amd64.zip";

pub const NGROK_LINUX32: &'static str =
    "https://bin.equinox.io/c/4VmDzA7iaHb/ngrok-stable-linux-386.zip";

pub const NGROK_ARMLINUX: &'static str =
    "https://bin.equinox.io/c/4VmDzA7iaHb/ngrok-stable-linux-arm64.zip";

pub const NGROK_ARMLINUX32: &'static str =
    "https://bin.equinox.io/c/4VmDzA7iaHb/ngrok-stable-linux-arm.zip";

pub const NGROK_FREEBSD: &'static str =
    "https://bin.equinox.io/c/4VmDzA7iaHb/ngrok-stable-freebsd-amd64.zip";

pub const NGROK_FREEBSD32: &'static str =
    "https://bin.equinox.io/c/4VmDzA7iaHb/ngrok-stable-freebsd-386.zip";

/// The file that the archive is written to, in the working directory.
pub const ARCHIVE_NAME: &'static str = "ngrok-local.zip";

/// The directory that the archive is unpacked into: the working directory.
pub const UNPACK_DIRECTORY: &'static str = ".";

/// The name of the agent's executable, without the suffix of the system.
pub const EXECUTABLE_STEM: &'static str = "ngrok";

/// The permission bits given to the unpacked executable: all for the owner,
/// none for anyone else.
pub const EXECUTABLE_MODE: u32 = 0o700;

/// The machine that the agent is to run on, as the standard library names it.
#[derive(Clone, Debug, PartialEq, Eq)]
pub struct Platform {
    /// The processor architecture, such as `x86_64`.
    pub arch: String,
    /// The operating system, such as `linux`.
    pub os: String,
    /// What the system appends to the name of an executable, such as `.exe`.
    pub exe_suffix: String,
}

/// What is needed to install the agent: where its archive is fetched from,
/// where it is written and unpacked, and what is done to the executable.
#[derive(Clone, Debug, PartialEq, Eq)]
pub struct Download {
    /// The address of the archive.
    pub url: String,
    /// The file that the archive is written to.
    pub archive: String,
    /// The directory that the archive is unpacked into.
    pub directory: String,
    /// The name of the executable that the archive holds.
    pub executable: String,
    /// The permission bits to set on the executable, where the system has any.
    pub mode: Option<u32>,
}

/// The content of a [`Platform`].
pub struct PlatformView {
    pub arch: Seq<char>,
    pub os: Seq<char>,
    pub exe_suffix: Seq<char>,
}

impl View for Platform {
    type V = PlatformView;

    open spec fn view(&self) -> PlatformView {
        PlatformView { arch: self.arch@, os: self.os@, exe_suffix: self.exe_suffix@ }
    }
}

/// The content of a [`Download`].
pub struct DownloadView {
    pub url: Seq<char>,
    pub archive: Seq<char>,
    pub directory: Seq<char>,
    pub executable: Seq<char>,
    pub mode: Option<u32>,
}

impl View for Download {
    type V = DownloadView;

    open spec fn view(&self) -> DownloadView {
        DownloadView {
            url: self.url@,
            archive: self.archive@,
            directory: self.directory@,
            executable: self.executable@,
            mode: self.mode,
        }
    }
}

/// The address of the archive for a machine; `None` for a machine that no
/// archive is published for. Any architecture will do for `macos`.
pub open spec fn archive_for(arch: Seq<char>, os: Seq<char>) -> Option<Seq<char>> {
    if arch == "x86_64"@ && os == "windows"@ {
        Some(NGROK_WIN64@)
    } else if arch == "x86"@ && os == "windows"@ {
        Some(NGROK_WIN32@)
    } else if os == "macos"@ {
        Some(NGROK_MACOS@)
    } else if arch == "x86_64"@ && os == "linux"@ {
        Some(NGROK_LINUX@)
    } else if arch == "x86"@ && os == "linux"@ {
        Some(NGROK_LINUX32@)
    } else if arch == "aarch64"@ && os == "linux"@ {
        Some(NGROK_ARMLINUX@)
    } else if arch == "arm"@ && os == "linux"@ {
        Some(NGROK_ARMLINUX32@)
    } else if arch == "x86_64"@ && os == "freebsd"@ {
        Some(NGROK_FREEBSD@)
    } else if arch == "x86"@ && os == "freebsd"@ {
        Some(NGROK_FREEBSD32@)
    } else {
        None
    }
}

/// Whether a system is one of the Unix-like ones that an archive exists for.
pub open spec fn unix_like(os: Seq<char>) -> bool {
    os == "linux"@ || os == "macos"@ || os == "freebsd"@
}

/// The name of the agent's executable on a system with the given suffix.
pub open spec fn executable_name(exe_suffix: Seq<char>) -> Seq<char> {
    EXECUTABLE_STEM@ + exe_suffix
}

/// The installation that a machine calls for, where an archive exists for it.
pub open spec fn download_for(platform: PlatformView) -> Option<DownloadView> {
    match archive_for(platform.arch, platform.os) {
        Some(url) => Some(
            DownloadView {
                url,
                archive: ARCHIVE_NAME@,
                directory: UNPACK_DIRECTORY@,
                executable: executable_name(platform.exe_suffix),
                mode: if unix_like(platform.os) {
                    Some(EXECUTABLE_MODE)
                } else {
                    None
                },
            },
        ),
        None => None,
    }
}

/// The address of the archive for a machine.
pub fn archive_url(arch: &str, os: &str) -> (r: Option<&'static str>)
    ensures
        match r {
            Some(url) => archive_for(arch@, os@) == Some(url@),
            None => archive_for(arch@, os@) is None,
        },
{
    if same_text(arch, "x86_64") && same_text(os, "windows") {
        Some(NGROK_WIN64)
    } else if same_text(arch, "x86") && same_text(os, "windows") {
        Some(NGROK_WIN32)
    } else if same_text(os, "macos") {
        Some(NGROK_MACOS)
    } else if same_text(arch, "x86_64") && same_text(os, "linux") {
        Some(NGROK_LINUX)
    } else if same_text(arch, "x86") && same_text(os, "linux") {
        Some(NGROK_LINUX32)
    } else if same_text(arch, "aarch64") && same_text(os, "linux") {
        Some(NGROK_ARMLINUX)
    } else if same_text(arch, "arm") && same_text(os, "linux") {
        Some(NGROK_ARMLINUX32)
    } else if same_text(arch, "x86_64") && same_text(os, "freebsd") {
        Some(NGROK_FREEBSD)
    } else if same_text(arch, "x86") && same_text(os, "freebsd") {
        Some(NGROK_FREEBSD32)
    } else {
        None
    }
}

impl Platform {
    /// Describes a machine by the names that the standard library gives its
    /// architecture, its system and the suffix of its executables.
    pub fn new(arch: &str, os: &str, exe_suffix: &str) -> (r: Platform)
        ensures
            r@ == (PlatformView { arch: arch@, os: os@, exe_suffix: exe_suffix@ }),
    {
        Platform {
            arch: String::from_str(arch),
            os: String::from_str(os),
            exe_suffix: String::from_str(exe_suffix),
        }
    }
}

/// Whether the permission bits of the executable are to be set on a system.
fn is_unix_like(os: &str) -> (r: bool)
    ensures
        r == unix_like(os@),
{
    same_text(os, "linux") || same_text(os, "macos") || same_text(os, "freebsd")
}

impl Ngrok {
    /// The name of the agent's executable on the machine of this client.
    pub fn exe_name(&self) -> (r: String)
        ensures
            r@ == executable_name(self.machine()@.exe_suffix),
    {
        let mut name = String::from_str(EXECUTABLE_STEM);
        name.append(self.platform().exe_suffix.as_str());
        name
    }

    /// Plans the installation of the agent on the machine of this client.
    ///
    /// A machine that no archive is published for gets no plan, so that
    /// nothing is fetched or written for it.
    pub fn download(&self) -> (r: Result<Download, ClientError>)
        ensures
            match r {
                Ok(download) => download_for(self.machine()@) == Some(download@),
                Err(e) => e@ == ClientErrorView::UnsupportedPlatform && download_for(
                    self.machine()@,
                ) is None,
            },
    {
        let platform = self.platform();
        match archive_url(platform.arch.as_str(), platform.os.as_str()) {
            Some(url) => {
                let mode = if is_unix_like(platform.os.as_str()) {
                    Some(EXECUTABLE_MODE)
                } else {
                    None
                };
                Ok(
                    Download {
                        url: String::from_str(url),
                        archive: String::from_str(ARCHIVE_NAME),
                        directory: String::from_str(UNPACK_DIRECTORY),
                        executable: self.exe_name(),
                        mode,
                    },
                )
            },
            None => Err(ClientError::UnsupportedPlatform),
        }
    }
}

} // verus!
