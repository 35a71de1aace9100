//! The operating-system segment: an icon for the running system.

use vstd::prelude::*;
use vstd::string::*;
use crate::color::Color;
use crate::policy::{resolve, resolved};
use crate::segment::PromptSegment;

verus! {

/// The operating systems that have an icon of their own; `Other` stands for
/// every system not listed.
#[allow(non_camel_case_types)]
#[derive(Debug, PartialEq, Eq, Structural, Clone, Copy)]
pub enum OsKind {
    AIX,
    AlmaLinux,
    Alpaquita,
    Alpine,
    ALTLinux,
    Amazon,
    Android,
    AOSC,
    Arch,
    Artix,
    Bluefin,
    CachyOS,
    CentOS,
    Cygwin,
    Debian,
    DragonFly,
    Elementary,
    Emscripten,
    EndeavourOS,
    Fedora,
    FreeBSD,
    Garuda,
    Gentoo,
    HardenedBSD,
    Illumos,
    InstantOS,
    Ios,
    Kali,
    Linux,
    Mabox,
    Macos,
    Manjaro,
    Mariner,
    MidnightBSD,
    Mint,
    NetBSD,
    NixOS,
    Nobara,
    OpenBSD,
    OpenCloudOS,
    openEuler,
    openSUSE,
    OracleLinux,
    PikaOS,
    Pop,
    Raspbian,
    Redhat,
    RedHatEnterprise,
    Redox,
    RockyLinux,
    Solus,
    SUSE,
    Ubuntu,
    Ultramarine,
    Unknown,
    Uos,
    Void,
    Windows,
    Zorin,
    Other,
}

/// The icon of an operating system.
pub open spec fn os_icon_of(k: OsKind) -> Seq<char> {
    match k {
        OsKind::AIX | OsKind::Alpaquita | OsKind::ALTLinux | OsKind::Bluefin | OsKind::Linux | OsKind::openEuler | OsKind::Uos => "\u{f17c}"@,
        OsKind::AlmaLinux => "\u{f31d}"@,
        OsKind::Alpine => "\u{f300}"@,
        OsKind::Amazon => "\u{f270}"@,
        OsKind::Android => "\u{e70e}"@,
        OsKind::AOSC => "\u{f301}"@,
        OsKind::Arch | OsKind::CachyOS | OsKind::InstantOS | OsKind::Mabox => "\u{f08c7}"@,
        OsKind::Artix => "\u{f31f}"@,
        OsKind::CentOS | OsKind::Redhat | OsKind::RedHatEnterprise => "\u{f316}"@,
        OsKind::Cygwin | OsKind::Windows => "\u{f17a}"@,
        OsKind::Debian => "\u{f306}"@,
        OsKind::DragonFly | OsKind::FreeBSD | OsKind::HardenedBSD | OsKind::MidnightBSD | OsKind::NetBSD => "\u{f30c}"@,
        OsKind::Elementary => "\u{f309}"@,
        OsKind::Emscripten => "\u{1f5f2}"@,
        OsKind::EndeavourOS => "\u{f322}"@,
        OsKind::Fedora | OsKind::Ultramarine => "\u{f30a}"@,
        OsKind::Garuda => "\u{f337}"@,
        OsKind::Gentoo => "\u{f30d}"@,
        OsKind::Illumos => "\u{f326}"@,
        OsKind::Ios | OsKind::Macos => "\u{f179}"@,
        OsKind::Kali => "\u{f327}"@,
        OsKind::Manjaro => "\u{f312}"@,
        OsKind::Mariner => "\u{ebd8}"@,
        OsKind::Mint => "\u{f08ed}"@,
        OsKind::NixOS => "\u{f313}"@,
        OsKind::Nobara => "\u{f380}"@,
        OsKind::OpenBSD => "\u{f328}"@,
        OsKind::OpenCloudOS => "\u{ebaa}"@,
        OsKind::openSUSE | OsKind::SUSE => "\u{f314}"@,
        OsKind::OracleLinux => "\u{e859}"@,
        OsKind::PikaOS => "\u{f15c6}"@,
        OsKind::Pop => "\u{f32a}"@,
        OsKind::Raspbian => "\u{f315}"@,
        OsKind::Redox => "\u{24c7}"@,
        OsKind::RockyLinux => "\u{f32b}"@,
        OsKind::Solus => "\u{f32d}"@,
        OsKind::Ubuntu => "\u{f31b}"@,
        OsKind::Unknown | OsKind::Other => "\u{edfe}"@,
        OsKind::Void => "\u{f32e}"@,
        OsKind::Zorin => "\u{f32f}"@,
    }
}

/// The icon of an operating system, as a string.
pub fn os_icon(k: OsKind) -> (r: &'static str)
    ensures
        r@ == os_icon_of(k),
{
    match k {
        OsKind::AIX | OsKind::Alpaquita | OsKind::ALTLinux | OsKind::Bluefin | OsKind::Linux | OsKind::openEuler | OsKind::Uos => "\u{f17c}",
        OsKind::AlmaLinux => "\u{f31d}",
        OsKind::Alpine => "\u{f300}",
        OsKind::Amazon => "\u{f270}",
        OsKind::Android => "\u{e70e}",
        OsKind::AOSC => "\u{f301}",
        OsKind::Arch | OsKind::CachyOS | OsKind::InstantOS | OsKind::Mabox => "\u{f08c7}",
        OsKind::Artix => "\u{f31f}",
        OsKind::CentOS | OsKind::Redhat | OsKind::RedHatEnterprise => "\u{f316}",
        OsKind::Cygwin | OsKind::Windows => "\u{f17a}",
        OsKind::Debian => "\u{f306}",
        OsKind::DragonFly | OsKind::FreeBSD | OsKind::HardenedBSD | OsKind::MidnightBSD | OsKind::NetBSD => "\u{f30c}",
        OsKind::Elementary => "\u{f309}",
        OsKind::Emscripten => "\u{1f5f2}",
        OsKind::EndeavourOS => "\u{f322}",
        OsKind::Fedora | OsKind::Ultramarine => "\u{f30a}",
        OsKind::Garuda => "\u{f337}",
        OsKind::Gentoo => "\u{f30d}",
        OsKind::Illumos => "\u{f326}",
        OsKind::Ios | OsKind::Macos => "\u{f179}",
        OsKind::Kali => "\u{f327}",
        OsKind::Manjaro => "\u{f312}",
        OsKind::Mariner => "\u{ebd8}",
        OsKind::Mint => "\u{f08ed}",
        OsKind::NixOS => "\u{f313}",
        OsKind::Nobara => "\u{f380}",
        OsKind::OpenBSD => "\u{f328}",
        OsKind::OpenCloudOS => "\u{ebaa}",
        OsKind::openSUSE | OsKind::SUSE => "\u{f314}",
        OsKind::OracleLinux => "\u{e859}",
        OsKind::PikaOS => "\u{f15c6}",
        OsKind::Pop => "\u{f32a}",
        OsKind::Raspbian => "\u{f315}",
        OsKind::Redox => "\u{24c7}",
        OsKind::RockyLinux => "\u{f32b}",
        OsKind::Solus => "\u{f32d}",
        OsKind::Ubuntu => "\u{f31b}",
        OsKind::Unknown | OsKind::Other => "\u{edfe}",
        OsKind::Void => "\u{f32e}",
        OsKind::Zorin => "\u{f32f}",
    }
}

/// The operating-system segment, white unless a color is given.
pub fn os_icon_segment(k: OsKind, color: Option<Color>) -> (r: PromptSegment)
    ensures
        r@ == (os_icon_of(k), Some(resolved(Color::White, color, None))),
{
    PromptSegment { content: String::from_str(os_icon(k)), color: Some(resolve(Color::White, color, None)) }
}

} // verus!
