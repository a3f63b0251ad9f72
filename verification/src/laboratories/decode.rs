//! Reading the laboratory types from a TOML document. Each type has the
//! problems a value gives when read as it (none when it reads) and the
//! relation between a value and what it reads as; each decoder returns
//! exactly those.

use crate::document::{
    array_items, collect, optional, reported, TomlEntry, TomlError, TomlErrorView, TomlKind, TomlValue, error_views, field_value,
    finalize, find_field, finalized, integer_value, last_error, lookup, missing_field, open_table,
    or_else, required, single, string_errors, string_text, table_entries, take_string,
    take_u32, take_u64, u32_errors, u64_errors, unexpected_value, unexpected_value_error, wanted,
};
use crate::laboratories::identifier::{Identifier, kebab_case};
use crate::laboratories::laboratory::{Laboratory, Network, Provider, network_name};
use crate::laboratories::machines::packages::manager_name;
use crate::laboratories::machines::script::on_failure_name;
use crate::document::{TomlErrorKindView, remaining_keys};
use crate::laboratories::machines::hardware::Hardware;
use crate::laboratories::machines::operating_system::{
    DebianVersion, FedoraVersion, LinuxDistribution, OperatingSystem, UbuntuVersion, WindowsVersion,
};
use crate::laboratories::machines::packages::{Manager, Packages};
use crate::laboratories::machines::script::{OnFailure, Script};
use crate::laboratories::machines::user::User;
use crate::laboratories::machines::machine::Machine;
use crate::laboratories::Configuration;
use crate::document::{parse_toml, toml_document};
use crate::errors::reading::invalid_configuration;
use crate::errors::validation::Validation;
use crate::span::Spanned;
use crate::text::{owned, same_text, views};
use vstd::prelude::*;

verus! {

/// What an identifier must look like, as its error says.
pub const KEBAB_CASE_EXPECTATION: &'static str = "kebab-case identifier (lowercase letters, numbers, hyphens, starting with letter)";

// ---- identifiers and words ----

/// The problems of a value read as an identifier.
pub open spec fn identifier_errors(value: TomlValue) -> Option<Seq<TomlErrorView>> {
    match string_text(value) {
        None => Some(seq![wanted("a string"@, value)]),
        Some(text) => if kebab_case(text) {
            None
        } else {
            Some(seq![unexpected_value(seq![KEBAB_CASE_EXPECTATION@], text, value.span)])
        },
    }
}

/// Reads an identifier, with its place.
pub fn decode_identifier(value: &TomlValue) -> (outcome: Result<Spanned<Identifier>, Vec<TomlError>>)
    ensures
        match outcome {
            Ok(id) => identifier_errors(*value) is None && string_text(*value) == Some(id.value@) && id.span == value.span,
            Err(e) => e@.len() > 0 && identifier_errors(*value) == Some(error_views(e@)),
        },
{
    let text = match take_string(value) {
        Ok(text) => text,
        Err(e) => {
            return Err(single(e));
        },
    };
    match Identifier::parse(text.value.as_str()) {
        Some(identifier) => Ok(Spanned { value: identifier, span: value.span }),
        None => {
            let expected: [&str; 1] = [KEBAB_CASE_EXPECTATION];
            proof {
                assert(views(expected@) =~= seq![KEBAB_CASE_EXPECTATION@]);
            }
            Err(single(unexpected_value_error(&expected, text.value.as_str(), value.span)))
        },
    }
}

/// The words a network may be.
pub open spec fn network_words() -> Seq<Seq<char>> {
    seq!["isolated"@, "preserved"@, "private"@, "public"@]
}

/// The problems of a value read as a network.
pub open spec fn network_errors(value: TomlValue) -> Option<Seq<TomlErrorView>> {
    match string_text(value) {
        None => Some(seq![wanted("a string"@, value)]),
        Some(text) => if network_words().contains(text) {
            None
        } else {
            Some(seq![unexpected_value(network_words(), text, value.span)])
        },
    }
}

/// The network a word names.
pub open spec fn network_of(text: Seq<char>) -> Network {
    if text == "isolated"@ {
        Network::Isolated
    } else if text == "preserved"@ {
        Network::Preserved
    } else if text == "private"@ {
        Network::Private
    } else {
        Network::Public
    }
}

/// Reads a network.
pub fn decode_network(value: &TomlValue) -> (outcome: Result<Network, Vec<TomlError>>)
    ensures
        match outcome {
            Ok(n) => network_errors(*value) is None && string_text(*value) is Some && n == network_of(
                string_text(*value)->0,
            ),
            Err(e) => e@.len() > 0 && network_errors(*value) == Some(error_views(e@)),
        },
{
    let text = match take_string(value) {
        Ok(text) => text,
        Err(e) => {
            return Err(single(e));
        },
    };
    let word = text.value.as_str();
    let ghost t = word@;
    let ghost words = network_words();
    assert(words[0] == "isolated"@ && words[1] == "preserved"@ && words[2] == "private"@
        && words[3] == "public"@);
    if same_text(word, "isolated") {
        Ok(Network::Isolated)
    } else if same_text(word, "preserved") {
        Ok(Network::Preserved)
    } else if same_text(word, "private") {
        Ok(Network::Private)
    } else if same_text(word, "public") {
        Ok(Network::Public)
    } else {
        let expected: [&str; 4] = ["isolated", "preserved", "private", "public"];
        proof {
            assert(views(expected@) =~= network_words());
            assert(!network_words().contains(t)) by {
                if network_words().contains(t) {
                    let j = choose|j: int| 0 <= j < 4 && network_words()[j] == t;
                    assert(j == 0 || j == 1 || j == 2 || j == 3);
                }
            }
        }
        Err(single(unexpected_value_error(&expected, word, value.span)))
    }
}

/// The words a provider may be.
pub open spec fn provider_words() -> Seq<Seq<char>> {
    seq!["kvm"@]
}

/// The problems of a value read as a provider.
pub open spec fn provider_errors(value: TomlValue) -> Option<Seq<TomlErrorView>> {
    match string_text(value) {
        None => Some(seq![wanted("a string"@, value)]),
        Some(text) => if text == "kvm"@ {
            None
        } else {
            Some(seq![unexpected_value(provider_words(), text, value.span)])
        },
    }
}

/// Reads a provider.
pub fn decode_provider(value: &TomlValue) -> (outcome: Result<Provider, Vec<TomlError>>)
    ensures
        match outcome {
            Ok(p) => provider_errors(*value) is None && p == Provider::Kvm,
            Err(e) => e@.len() > 0 && provider_errors(*value) == Some(error_views(e@)),
        },
{
    let text = match take_string(value) {
        Ok(text) => text,
        Err(e) => {
            return Err(single(e));
        },
    };
    if same_text(text.value.as_str(), "kvm") {
        Ok(Provider::Kvm)
    } else {
        let expected: [&str; 1] = ["kvm"];
        proof {
            assert(views(expected@) =~= provider_words());
        }
        Err(single(unexpected_value_error(&expected, text.value.as_str(), value.span)))
    }
}

// ---- the laboratory ----

/// The keys of a laboratory table.
pub open spec fn laboratory_fields() -> Seq<Seq<char>> {
    seq!["name"@, "network"@, "provider"@]
}

/// The problems of a value read as a laboratory.
pub open spec fn laboratory_errors(value: TomlValue) -> Option<Seq<TomlErrorView>> {
    match table_entries(value) {
        None => Some(seq![wanted("a table"@, value)]),
        Some(e) => or_else(
            required(e, "name"@, value.span, string_errors(field_value(e, "name"@))),
            or_else(
                required(e, "network"@, value.span, network_errors(field_value(e, "network"@))),
                or_else(
                    required(
                        e,
                        "provider"@,
                        value.span,
                        provider_errors(field_value(e, "provider"@)),
                    ),
                    finalized(e, laboratory_fields(), value.span, Seq::empty()),
                ),
            ),
        ),
    }
}

/// Whether `laboratory` is what the laboratory table `value` reads as.
pub open spec fn laboratory_read(value: TomlValue, laboratory: Laboratory) -> bool {
    let entries = table_entries(value)->0;
    &&& table_entries(value) is Some
    &&& string_text(field_value(entries, "name"@)) == Some(laboratory.name@)
    &&& string_text(field_value(entries, "network"@)) is Some
    &&& laboratory.network == network_of(string_text(field_value(entries, "network"@))->0)
    &&& laboratory.provider == Provider::Kvm
}

/// Reads a laboratory.
pub fn decode_laboratory(value: &TomlValue) -> (outcome: Result<Laboratory, Vec<TomlError>>)
    ensures
        match outcome {
            Ok(l) => laboratory_errors(*value) is None && laboratory_read(*value, l),
            Err(e) => e@.len() > 0 && laboratory_errors(*value) == Some(error_views(e@)),
        },
{
    let entries = match open_table(value) {
        Ok(entries) => entries,
        Err(e) => {
            return Err(single(e));
        },
    };
    let name = match find_field(entries, "name") {
        None => {
            return Err(single(missing_field("name", value.span)));
        },
        Some(x) => match take_string(x) {
            Ok(text) => text.value,
            Err(e) => {
                return Err(last_error(single(e)));
            },
        },
    };
    let network = match find_field(entries, "network") {
        None => {
            return Err(single(missing_field("network", value.span)));
        },
        Some(x) => match decode_network(x) {
            Ok(n) => n,
            Err(e) => {
                return Err(last_error(e));
            },
        },
    };
    let provider = match find_field(entries, "provider") {
        None => {
            return Err(single(missing_field("provider", value.span)));
        },
        Some(x) => match decode_provider(x) {
            Ok(p) => p,
            Err(e) => {
                return Err(last_error(e));
            },
        },
    };
    let expected: [&str; 3] = ["name", "network", "provider"];
    proof {
        assert(views(expected@) =~= laboratory_fields());
    }
    let none: Vec<TomlError> = Vec::new();
    proof {
        assert(error_views(none@) =~= Seq::empty());
    }
    match finalize(entries, &expected, value.span, none) {
        Ok(()) => Ok(Laboratory { name, network, provider }),
        Err(e) => Err(e),
    }
}

// ---- hardware ----

/// The keys of a hardware table.
pub open spec fn hardware_fields() -> Seq<Seq<char>> {
    seq!["cpus"@, "memory_megabyte"@]
}

/// The CPUs of a machine whose hardware table leaves them out.
pub const DEFAULT_CPUS: u32 = 1;

/// The memory, in megabytes, of a machine whose hardware table leaves it out.
pub const DEFAULT_MEMORY_MEGABYTE: u32 = 512;

/// The problems of a value read as hardware: those of each number that is
/// given, collected, then keys that do not belong.
pub open spec fn hardware_errors(value: TomlValue) -> Option<Seq<TomlErrorView>> {
    match table_entries(value) {
        None => Some(seq![wanted("a table"@, value)]),
        Some(e) => finalized(
            e,
            hardware_fields(),
            value.span,
            optional(e, "cpus"@, u32_errors(field_value(e, "cpus"@))) + optional(
                e,
                "memory_megabyte"@,
                u32_errors(field_value(e, "memory_megabyte"@)),
            ),
        ),
    }
}

/// Whether `number` is what `value` reads as: its integer and its place.
pub open spec fn number_read(value: TomlValue, number: Spanned<u32>) -> bool {
    number.value == integer_value(value) && number.span == value.span
}

/// Whether `number` is what the field `name` of a table reads as: the
/// number given there, or else `default` placed at the table.
pub open spec fn number_or_default_read(
    entries: Seq<TomlEntry>,
    name: Seq<char>,
    table_span: crate::span::Span,
    default: u32,
    number: Spanned<u32>,
) -> bool {
    if lookup(entries, name) is Some {
        number_read(field_value(entries, name), number)
    } else {
        number.value == default && number.span == table_span
    }
}

/// Whether `hardware` is what the hardware table `value` reads as; a number
/// left out takes its default.
pub open spec fn hardware_read(value: TomlValue, hardware: Hardware) -> bool {
    let entries = table_entries(value)->0;
    &&& table_entries(value) is Some
    &&& number_or_default_read(entries, "cpus"@, value.span, DEFAULT_CPUS, hardware.cpus)
    &&& number_or_default_read(
        entries,
        "memory_megabyte"@,
        value.span,
        DEFAULT_MEMORY_MEGABYTE,
        hardware.memory_megabyte,
    )
}

/// Reads the number field `name` of a table, or `default` placed at the
/// table when it is left out; the problems of a number that is given are
/// added to `collected`.
fn number_or_default(
    entries: &Vec<TomlEntry>,
    name: &str,
    table_span: crate::span::Span,
    default: u32,
    collected: &mut Vec<TomlError>,
) -> (number: Spanned<u32>)
    ensures
        error_views(final(collected)@) == error_views(old(collected)@) + optional(
            entries@,
            name@,
            u32_errors(field_value(entries@, name@)),
        ),
        optional(entries@, name@, u32_errors(field_value(entries@, name@))).len() == 0
            ==> number_or_default_read(entries@, name@, table_span, default, number),
{
    match find_field(entries, name) {
        None => {
            proof {
                assert(error_views(collected@) =~= error_views(old(collected)@) + Seq::empty());
            }
            Spanned { value: default, span: table_span }
        },
        Some(x) => match take_u32(x) {
            Ok(n) => {
                proof {
                    assert(error_views(collected@) =~= error_views(old(collected)@) + Seq::empty());
                }
                n
            },
            Err(e) => {
                collect(collected, single(e));
                Spanned { value: default, span: table_span }
            },
        },
    }
}

/// Reads the hardware of a machine.
pub fn decode_hardware(value: &TomlValue) -> (outcome: Result<Hardware, Vec<TomlError>>)
    ensures
        match outcome {
            Ok(h) => hardware_errors(*value) is None && hardware_read(*value, h),
            Err(e) => e@.len() > 0 && hardware_errors(*value) == Some(error_views(e@)),
        },
{
    let entries = match open_table(value) {
        Ok(entries) => entries,
        Err(e) => {
            return Err(single(e));
        },
    };
    let mut collected: Vec<TomlError> = Vec::new();
    proof {
        assert(error_views(collected@) =~= Seq::empty());
    }
    let cpus = number_or_default(entries, "cpus", value.span, DEFAULT_CPUS, &mut collected);
    let memory_megabyte = number_or_default(
        entries,
        "memory_megabyte",
        value.span,
        DEFAULT_MEMORY_MEGABYTE,
        &mut collected,
    );
    let expected: [&str; 2] = ["cpus", "memory_megabyte"];
    proof {
        assert(views(expected@) =~= hardware_fields());
        let e = entries@;
        assert(error_views(collected@) =~= optional(e, "cpus"@, u32_errors(field_value(e, "cpus"@)))
            + optional(e, "memory_megabyte"@, u32_errors(field_value(e, "memory_megabyte"@))));
    }
    match finalize(entries, &expected, value.span, collected) {
        Ok(()) => Ok(Hardware { cpus, memory_megabyte }),
        Err(e) => Err(e),
    }
}


// ---- operating systems ----

/// The keys of a Linux operating-system table.
pub open spec fn linux_fields() -> Seq<Seq<char>> {
    seq!["family"@, "distribution"@, "version"@, "image"@]
}

/// The keys of a Windows operating-system table.
pub open spec fn windows_fields() -> Seq<Seq<char>> {
    seq!["family"@, "version"@, "image"@]
}

/// The problems of a distribution and release read together.
pub open spec fn distribution_errors(distribution: TomlValue, version: TomlValue) -> Option<
    Seq<TomlErrorView>,
> {
    let d = string_text(distribution)->0;
    let v = string_text(version)->0;
    if d == "debian"@ {
        if v == "13"@ {
            None
        } else {
            Some(seq![unexpected_value(seq!["13"@], v, version.span)])
        }
    } else if d == "fedora"@ {
        if v == "43"@ {
            None
        } else {
            Some(seq![unexpected_value(seq!["43"@], v, version.span)])
        }
    } else if d == "ubuntu"@ {
        if v == "24.04"@ {
            None
        } else {
            Some(seq![unexpected_value(seq!["24.04"@], v, version.span)])
        }
    } else {
        Some(seq![unexpected_value(seq!["debian"@, "fedora"@, "ubuntu"@], d, distribution.span)])
    }
}

/// The problems of a Windows release.
pub open spec fn windows_version_errors(version: TomlValue) -> Option<Seq<TomlErrorView>> {
    let v = string_text(version)->0;
    if v == "10"@ || v == "11"@ {
        None
    } else {
        Some(seq![unexpected_value(seq!["10"@, "11"@], v, version.span)])
    }
}

/// The Windows release a release word names.
pub open spec fn windows_version_of(version: Seq<char>) -> WindowsVersion {
    if version == "10"@ {
        WindowsVersion::Windows10
    } else {
        WindowsVersion::Windows11
    }
}

/// The problems of a value read as an operating system: the family first,
/// then the fields of that family; a Linux distribution is checked after
/// the table's keys, a Windows release before the image.
pub open spec fn operating_system_errors(value: TomlValue) -> Option<Seq<TomlErrorView>> {
    match table_entries(value) {
        None => Some(seq![wanted("a table"@, value)]),
        Some(e) => {
            let family = field_value(e, "family"@);
            or_else(
                required(e, "family"@, value.span, string_errors(family)),
                if string_text(family) == Some("linux"@) {
                    or_else(
                        required(
                            e,
                            "distribution"@,
                            value.span,
                            string_errors(field_value(e, "distribution"@)),
                        ),
                        or_else(
                            required(
                                e,
                                "version"@,
                                value.span,
                                string_errors(field_value(e, "version"@)),
                            ),
                            or_else(
                                required(
                                    e,
                                    "image"@,
                                    value.span,
                                    string_errors(field_value(e, "image"@)),
                                ),
                                or_else(
                                    finalized(e, linux_fields(), value.span, Seq::empty()),
                                    distribution_errors(
                                        field_value(e, "distribution"@),
                                        field_value(e, "version"@),
                                    ),
                                ),
                            ),
                        ),
                    )
                } else if string_text(family) == Some("windows"@) {
                    or_else(
                        required(
                            e,
                            "version"@,
                            value.span,
                            string_errors(field_value(e, "version"@)),
                        ),
                        or_else(
                            windows_version_errors(field_value(e, "version"@)),
                            or_else(
                                required(
                                    e,
                                    "image"@,
                                    value.span,
                                    string_errors(field_value(e, "image"@)),
                                ),
                                finalized(e, windows_fields(), value.span, Seq::empty()),
                            ),
                        ),
                    )
                } else {
                    Some(
                        seq![unexpected_value(seq!["linux"@, "windows"@], string_text(family)->0, family.span)],
                    )
                },
            )
        },
    }
}

/// Whether `text` is what the string value `value` reads as, with its place.
pub open spec fn text_read(value: TomlValue, text: Spanned<String>) -> bool {
    string_text(value) == Some(text.value@) && text.span == value.span
}

/// The distribution that a distribution word and a release word name.
pub open spec fn distribution_of(distribution: Seq<char>) -> LinuxDistribution {
    if distribution == "debian"@ {
        LinuxDistribution::Debian(DebianVersion::Debian13)
    } else if distribution == "fedora"@ {
        LinuxDistribution::Fedora(FedoraVersion::Fedora43)
    } else {
        LinuxDistribution::Ubuntu(UbuntuVersion::Ubuntu2404)
    }
}

/// Whether `os` is what the operating-system table `value` reads as.
pub open spec fn operating_system_read(value: TomlValue, os: OperatingSystem) -> bool {
    let e = table_entries(value)->0;
    &&& table_entries(value) is Some
    &&& match os {
        OperatingSystem::Linux { distribution, image } => {
            &&& string_text(field_value(e, "family"@)) == Some("linux"@)
            &&& distribution == distribution_of(string_text(field_value(e, "distribution"@))->0)
            &&& text_read(field_value(e, "image"@), image)
        },
        OperatingSystem::Windows { version, image } => {
            &&& string_text(field_value(e, "family"@)) == Some("windows"@)
            &&& version == windows_version_of(string_text(field_value(e, "version"@))->0)
            &&& text_read(field_value(e, "image"@), image)
        },
    }
}

/// Reads the string field `name` of a table that must have it.
fn required_text(entries: &Vec<TomlEntry>, name: &str, table_span: crate::span::Span) -> (text: Result<
    Spanned<String>,
    Vec<TomlError>,
>)
    ensures
        match text {
            Ok(t) => required(entries@, name@, table_span, string_errors(field_value(entries@, name@)))
                is None && lookup(entries@, name@) is Some && text_read(
                field_value(entries@, name@),
                t,
            ),
            Err(e) => e@.len() > 0 && required(
                entries@,
                name@,
                table_span,
                string_errors(field_value(entries@, name@)),
            ) == Some(error_views(e@)),
        },
{
    match find_field(entries, name) {
        None => Err(single(missing_field(name, table_span))),
        Some(x) => match take_string(x) {
            Ok(text) => Ok(text),
            Err(e) => Err(last_error(single(e))),
        },
    }
}

/// Reads an operating system.
pub fn decode_operating_system(value: &TomlValue) -> (outcome: Result<OperatingSystem, Vec<TomlError>>)
    ensures
        match outcome {
            Ok(os) => operating_system_errors(*value) is None && operating_system_read(*value, os),
            Err(e) => e@.len() > 0 && operating_system_errors(*value) == Some(error_views(e@)),
        },
{
    let entries = match open_table(value) {
        Ok(entries) => entries,
        Err(e) => {
            return Err(single(e));
        },
    };
    let family = required_text(entries, "family", value.span)?;
    let none: Vec<TomlError> = Vec::new();
    proof {
        assert(error_views(none@) =~= Seq::empty());
    }
    if same_text(family.value.as_str(), "linux") {
        let distribution = required_text(entries, "distribution", value.span)?;
        let version = required_text(entries, "version", value.span)?;
        let image = required_text(entries, "image", value.span)?;
        let expected: [&str; 4] = ["family", "distribution", "version", "image"];
        proof {
            assert(views(expected@) =~= linux_fields());
        }
        finalize(entries, &expected, value.span, none)?;
        let d = distribution.value.as_str();
        let v = version.value.as_str();
        if same_text(d, "debian") {
            if same_text(v, "13") {
                Ok(OperatingSystem::Linux { distribution: LinuxDistribution::Debian(DebianVersion::Debian13), image })
            } else {
                let words: [&str; 1] = ["13"];
                proof {
                    assert(views(words@) =~= seq!["13"@]);
                }
                Err(single(unexpected_value_error(&words, v, version.span)))
            }
        } else if same_text(d, "fedora") {
            if same_text(v, "43") {
                Ok(OperatingSystem::Linux { distribution: LinuxDistribution::Fedora(FedoraVersion::Fedora43), image })
            } else {
                let words: [&str; 1] = ["43"];
                proof {
                    assert(views(words@) =~= seq!["43"@]);
                }
                Err(single(unexpected_value_error(&words, v, version.span)))
            }
        } else if same_text(d, "ubuntu") {
            if same_text(v, "24.04") {
                Ok(OperatingSystem::Linux { distribution: LinuxDistribution::Ubuntu(UbuntuVersion::Ubuntu2404), image })
            } else {
                let words: [&str; 1] = ["24.04"];
                proof {
                    assert(views(words@) =~= seq!["24.04"@]);
                }
                Err(single(unexpected_value_error(&words, v, version.span)))
            }
        } else {
            let words: [&str; 3] = ["debian", "fedora", "ubuntu"];
            proof {
                assert(views(words@) =~= seq!["debian"@, "fedora"@, "ubuntu"@]);
            }
            Err(single(unexpected_value_error(&words, d, distribution.span)))
        }
    } else if same_text(family.value.as_str(), "windows") {
        let version = required_text(entries, "version", value.span)?;
        let release = if same_text(version.value.as_str(), "10") {
            WindowsVersion::Windows10
        } else if same_text(version.value.as_str(), "11") {
            WindowsVersion::Windows11
        } else {
            let words: [&str; 2] = ["10", "11"];
            proof {
                assert(views(words@) =~= seq!["10"@, "11"@]);
            }
            return Err(single(unexpected_value_error(&words, version.value.as_str(), version.span)));
        };
        let image = required_text(entries, "image", value.span)?;
        let expected: [&str; 3] = ["family", "version", "image"];
        proof {
            assert(views(expected@) =~= windows_fields());
        }
        finalize(entries, &expected, value.span, none)?;
        Ok(OperatingSystem::Windows { version: release, image })
    } else {
        let words: [&str; 2] = ["linux", "windows"];
        proof {
            assert(views(words@) =~= seq!["linux"@, "windows"@]);
        }
        Err(single(unexpected_value_error(&words, family.value.as_str(), family.span)))
    }
}

// ---- users ----

/// The keys of a user table.
pub open spec fn user_fields() -> Seq<Seq<char>> {
    seq!["username"@, "password"@]
}

/// The problems of a value read as a user.
pub open spec fn user_errors(value: TomlValue) -> Option<Seq<TomlErrorView>> {
    match table_entries(value) {
        None => Some(seq![wanted("a table"@, value)]),
        Some(e) => or_else(
            required(e, "username"@, value.span, string_errors(field_value(e, "username"@))),
            or_else(
                required(e, "password"@, value.span, string_errors(field_value(e, "password"@))),
                finalized(e, user_fields(), value.span, Seq::empty()),
            ),
        ),
    }
}

/// Whether `user` is what the user table `value` reads as.
pub open spec fn user_read(value: TomlValue, user: User) -> bool {
    let e = table_entries(value)->0;
    &&& table_entries(value) is Some
    &&& text_read(field_value(e, "username"@), user.username)
    &&& text_read(field_value(e, "password"@), user.password)
}

/// Reads a user.
pub fn decode_user(value: &TomlValue) -> (outcome: Result<User, Vec<TomlError>>)
    ensures
        match outcome {
            Ok(u) => user_errors(*value) is None && user_read(*value, u),
            Err(e) => e@.len() > 0 && user_errors(*value) == Some(error_views(e@)),
        },
{
    let entries = match open_table(value) {
        Ok(entries) => entries,
        Err(e) => {
            return Err(single(e));
        },
    };
    let username = required_text(entries, "username", value.span)?;
    let password = required_text(entries, "password", value.span)?;
    let expected: [&str; 2] = ["username", "password"];
    let none: Vec<TomlError> = Vec::new();
    proof {
        assert(views(expected@) =~= user_fields());
        assert(error_views(none@) =~= Seq::empty());
    }
    finalize(entries, &expected, value.span, none)?;
    Ok(User { username, password })
}


// ---- packages ----

/// The words a package manager may be.
pub open spec fn manager_words() -> Seq<Seq<char>> {
    seq!["apt"@, "dnf"@, "nix"@, "winget"@, "chocolatey"@, "pacman"@]
}

/// The manager a word names.
pub open spec fn manager_of(text: Seq<char>) -> Manager {
    if text == "apt"@ {
        Manager::Apt
    } else if text == "dnf"@ {
        Manager::Dnf
    } else if text == "nix"@ {
        Manager::Nix
    } else if text == "winget"@ {
        Manager::Winget
    } else if text == "chocolatey"@ {
        Manager::Chocolatey
    } else {
        Manager::Pacman
    }
}

/// The problems of a string value read as a package manager.
pub open spec fn manager_word_errors(value: TomlValue) -> Option<Seq<TomlErrorView>> {
    let text = string_text(value)->0;
    if manager_words().contains(text) {
        None
    } else {
        Some(seq![unexpected_value(manager_words(), text, value.span)])
    }
}

/// The problems of array items read as strings, in order.
pub open spec fn string_item_errors(items: Seq<TomlValue>) -> Seq<TomlErrorView>
    decreases items.len(),
{
    if items.len() == 0 {
        Seq::empty()
    } else {
        string_item_errors(items.drop_last()) + match string_errors(items.last()) {
            None => Seq::empty(),
            Some(errors) => errors,
        }
    }
}

/// The problems of a value read as a list of package names.
pub open spec fn names_errors(value: TomlValue) -> Option<Seq<TomlErrorView>> {
    match array_items(value) {
        None => Some(seq![wanted("an array"@, value)]),
        Some(items) => reported(string_item_errors(items)),
    }
}

/// The keys of a package table.
pub open spec fn packages_fields() -> Seq<Seq<char>> {
    seq!["manager"@, "install"@]
}

/// The problems of a value read as a package section: the manager first
/// (its word is checked at once), then the names.
pub open spec fn packages_errors(value: TomlValue) -> Option<Seq<TomlErrorView>> {
    match table_entries(value) {
        None => Some(seq![wanted("a table"@, value)]),
        Some(e) => or_else(
            required(e, "manager"@, value.span, string_errors(field_value(e, "manager"@))),
            or_else(
                manager_word_errors(field_value(e, "manager"@)),
                or_else(
                    required(e, "install"@, value.span, names_errors(field_value(e, "install"@))),
                    finalized(e, packages_fields(), value.span, Seq::empty()),
                ),
            ),
        ),
    }
}

/// Whether `names` is what the array `value` reads as: each item's text and
/// place, and the array's place.
pub open spec fn names_read(value: TomlValue, names: Spanned<Vec<Spanned<String>>>) -> bool {
    let items = array_items(value)->0;
    &&& array_items(value) is Some
    &&& names.span == value.span
    &&& names.value@.len() == items.len()
    &&& forall|i: int|
        #![trigger names.value@[i]]
        0 <= i < items.len() ==> text_read(items[i], names.value@[i])
}

/// Whether `packages` is what the package table `value` reads as.
pub open spec fn packages_read(value: TomlValue, packages: Packages) -> bool {
    let e = table_entries(value)->0;
    let manager = field_value(e, "manager"@);
    &&& table_entries(value) is Some
    &&& packages.manager.value == manager_of(string_text(manager)->0)
    &&& packages.manager.span == manager.span
    &&& names_read(field_value(e, "install"@), packages.install)
}

/// Reads a list of package names.
fn decode_names(value: &TomlValue) -> (outcome: Result<Spanned<Vec<Spanned<String>>>, Vec<TomlError>>)
    ensures
        match outcome {
            Ok(n) => names_errors(*value) is None && names_read(*value, n),
            Err(e) => e@.len() > 0 && names_errors(*value) == Some(error_views(e@)),
        },
{
    let items = match &value.kind {
        TomlKind::Array(items) => items,
        _ => {
            return Err(single(crate::document::wanted_error("an array", value)));
        },
    };
    let mut names: Vec<Spanned<String>> = Vec::new();
    let mut errors: Vec<TomlError> = Vec::new();
    let mut i: usize = 0;
    while i < items.len()
        invariant
            array_items(*value) == Some(items@),
            i <= items@.len(),
            error_views(errors@) == string_item_errors(items@.take(i as int)),
            errors@.len() == 0 ==> names@.len() == i && forall|j: int|
                #![trigger names@[j]]
                0 <= j < i ==> text_read(items@[j], names@[j]),
        decreases items.len() - i,
    {
        proof {
            assert(items@.take(i + 1).drop_last() =~= items@.take(i as int));
        }
        match take_string(&items[i]) {
            Ok(text) => {
                names.push(text);
                proof {
                    assert(error_views(errors@) =~= string_item_errors(items@.take(i + 1)));
                }
            },
            Err(e) => {
                collect(&mut errors, single(e));
                proof {
                    assert(error_views(errors@) =~= string_item_errors(items@.take(i + 1)));
                }
            },
        }
        i = i + 1;
    }
    proof {
        assert(items@.take(items@.len() as int) =~= items@);
    }
    if errors.len() > 0 {
        Err(errors)
    } else {
        proof {
            assert(error_views(errors@).len() == 0);
        }
        Ok(Spanned { value: names, span: value.span })
    }
}

/// Reads a package section.
pub fn decode_packages(value: &TomlValue) -> (outcome: Result<Packages, Vec<TomlError>>)
    ensures
        match outcome {
            Ok(p) => packages_errors(*value) is None && packages_read(*value, p),
            Err(e) => e@.len() > 0 && packages_errors(*value) == Some(error_views(e@)),
        },
        outcome matches Ok(p) ==> manager_name(p.manager.value) == string_text(
            field_value(table_entries(*value)->0, "manager"@),
        )->0,
{
    let entries = match open_table(value) {
        Ok(entries) => entries,
        Err(e) => {
            return Err(single(e));
        },
    };
    let word = required_text(entries, "manager", value.span)?;
    let w = word.value.as_str();
    let manager = if same_text(w, "apt") {
        Manager::Apt
    } else if same_text(w, "dnf") {
        Manager::Dnf
    } else if same_text(w, "nix") {
        Manager::Nix
    } else if same_text(w, "winget") {
        Manager::Winget
    } else if same_text(w, "chocolatey") {
        Manager::Chocolatey
    } else if same_text(w, "pacman") {
        Manager::Pacman
    } else {
        let words: [&str; 6] = ["apt", "dnf", "nix", "winget", "chocolatey", "pacman"];
        proof {
            assert(views(words@) =~= manager_words());
            assert(!manager_words().contains(w@)) by {
                if manager_words().contains(w@) {
                    let j = choose|j: int| 0 <= j < 6 && manager_words()[j] == w@;
                    assert(j == 0 || j == 1 || j == 2 || j == 3 || j == 4 || j == 5);
                }
            }
        }
        return Err(single(unexpected_value_error(&words, w, word.span)));
    };
    proof {
        assert(manager_words().contains(w@)) by {
            if w@ == "apt"@ {
                assert(manager_words()[0] == w@);
            } else if w@ == "dnf"@ {
                assert(manager_words()[1] == w@);
            } else if w@ == "nix"@ {
                assert(manager_words()[2] == w@);
            } else if w@ == "winget"@ {
                assert(manager_words()[3] == w@);
            } else if w@ == "chocolatey"@ {
                assert(manager_words()[4] == w@);
            } else {
                assert(manager_words()[5] == w@);
            }
        }
    }
    let install = match find_field(entries, "install") {
        None => {
            return Err(single(missing_field("install", value.span)));
        },
        Some(x) => match decode_names(x) {
            Ok(n) => n,
            Err(e) => {
                return Err(last_error(e));
            },
        },
    };
    let expected: [&str; 2] = ["manager", "install"];
    let none: Vec<TomlError> = Vec::new();
    proof {
        assert(views(expected@) =~= packages_fields());
        assert(error_views(none@) =~= Seq::empty());
    }
    finalize(entries, &expected, value.span, none)?;
    let packages = Packages { manager: Spanned { value: manager, span: word.span }, install };
    proof {
        lemma_decoded_manager_names_its_word(*value, packages);
    }
    Ok(packages)
}

// ---- scripts ----

/// The words a failure policy may be.
pub open spec fn failure_words() -> Seq<Seq<char>> {
    seq!["warn"@, "fail"@, "error"@, "ignore"@]
}

/// The failure policy a word names.
pub open spec fn failure_of(text: Seq<char>) -> OnFailure {
    if text == "warn"@ {
        OnFailure::Warn
    } else if text == "fail"@ {
        OnFailure::Fail
    } else if text == "error"@ {
        OnFailure::Error
    } else {
        OnFailure::Ignore
    }
}

/// The keys of a script table.
pub open spec fn script_fields() -> Seq<Seq<char>> {
    seq!["path"@, "timeout_seconds"@, "on_failure"@]
}

/// The problems of a value read as a script: the path first; the problems
/// of the timeout and of a policy that is no string are collected; a policy
/// word that is not allowed is reported at once.
pub open spec fn script_errors(value: TomlValue) -> Option<Seq<TomlErrorView>> {
    match table_entries(value) {
        None => Some(seq![wanted("a table"@, value)]),
        Some(e) => {
            let policy = field_value(e, "on_failure"@);
            let collected = optional(
                e,
                "timeout_seconds"@,
                u32_errors(field_value(e, "timeout_seconds"@)),
            ) + optional(e, "on_failure"@, string_errors(policy));
            or_else(
                required(e, "path"@, value.span, string_errors(field_value(e, "path"@))),
                if lookup(e, "on_failure"@) is Some && string_text(policy) is Some
                    && !failure_words().contains(string_text(policy)->0) {
                    Some(seq![unexpected_value(failure_words(), string_text(policy)->0, policy.span)])
                } else {
                    finalized(e, script_fields(), value.span, collected)
                },
            )
        },
    }
}

/// Whether `script` is what the script table `value` reads as.
pub open spec fn script_read(value: TomlValue, script: Script) -> bool {
    let e = table_entries(value)->0;
    let timeout = field_value(e, "timeout_seconds"@);
    let policy = field_value(e, "on_failure"@);
    &&& table_entries(value) is Some
    &&& text_read(field_value(e, "path"@), script.path)
    &&& match script.timeout_seconds {
        None => lookup(e, "timeout_seconds"@) is None,
        Some(t) => lookup(e, "timeout_seconds"@) is Some && number_read(timeout, t),
    }
    &&& match script.on_failure {
        None => lookup(e, "on_failure"@) is None,
        Some(p) => lookup(e, "on_failure"@) is Some && p.span == policy.span && p.value == failure_of(
            string_text(policy)->0,
        ),
    }
}

/// Reads a script.
pub fn decode_script(value: &TomlValue) -> (outcome: Result<Script, Vec<TomlError>>)
    ensures
        match outcome {
            Ok(s) => script_errors(*value) is None && script_read(*value, s),
            Err(e) => e@.len() > 0 && script_errors(*value) == Some(error_views(e@)),
        },
{
    let entries = match open_table(value) {
        Ok(entries) => entries,
        Err(e) => {
            return Err(single(e));
        },
    };
    let path = required_text(entries, "path", value.span)?;
    let mut collected: Vec<TomlError> = Vec::new();
    proof {
        assert(error_views(collected@) =~= Seq::empty());
    }
    let timeout_seconds = match find_field(entries, "timeout_seconds") {
        None => None,
        Some(x) => match take_u32(x) {
            Ok(n) => Some(n),
            Err(e) => {
                collect(&mut collected, single(e));
                None
            },
        },
    };
    proof {
        assert(error_views(collected@) =~= optional(
            entries@,
            "timeout_seconds"@,
            u32_errors(field_value(entries@, "timeout_seconds"@)),
        ));
    }
    let ghost after_timeout = error_views(collected@);
    let on_failure = match find_field(entries, "on_failure") {
        None => None,
        Some(x) => match take_string(x) {
            Ok(text) => {
                let w = text.value.as_str();
                if same_text(w, "warn") {
                    proof {
                        assert(failure_words()[0] == w@);
                    }
                    Some(Spanned { value: OnFailure::Warn, span: text.span })
                } else if same_text(w, "fail") {
                    proof {
                        assert(failure_words()[1] == w@);
                    }
                    Some(Spanned { value: OnFailure::Fail, span: text.span })
                } else if same_text(w, "error") {
                    proof {
                        assert(failure_words()[2] == w@);
                    }
                    Some(Spanned { value: OnFailure::Error, span: text.span })
                } else if same_text(w, "ignore") {
                    proof {
                        assert(failure_words()[3] == w@);
                    }
                    Some(Spanned { value: OnFailure::Ignore, span: text.span })
                } else {
                    let words: [&str; 4] = ["warn", "fail", "error", "ignore"];
                    proof {
                        assert(views(words@) =~= failure_words());
                        assert(!failure_words().contains(w@)) by {
                            if failure_words().contains(w@) {
                                let j = choose|j: int| 0 <= j < 4 && failure_words()[j] == w@;
                                assert(j == 0 || j == 1 || j == 2 || j == 3);
                            }
                        }
                    }
                    return Err(single(unexpected_value_error(&words, w, text.span)));
                }
            },
            Err(e) => {
                collect(&mut collected, single(e));
                None
            },
        },
    };
    proof {
        let e = entries@;
        assert(error_views(collected@) =~= optional(
            e,
            "timeout_seconds"@,
            u32_errors(field_value(e, "timeout_seconds"@)),
        ) + optional(e, "on_failure"@, string_errors(field_value(e, "on_failure"@))));
    }
    let expected: [&str; 3] = ["path", "timeout_seconds", "on_failure"];
    proof {
        assert(views(expected@) =~= script_fields());
    }
    finalize(entries, &expected, value.span, collected)?;
    Ok(Script { path, timeout_seconds, on_failure })
}


// ---- machines ----

/// The problems of array items read as users, in order.
pub open spec fn user_item_errors(items: Seq<TomlValue>) -> Seq<TomlErrorView>
    decreases items.len(),
{
    if items.len() == 0 {
        Seq::empty()
    } else {
        user_item_errors(items.drop_last()) + match user_errors(items.last()) {
            None => Seq::empty(),
            Some(errors) => errors,
        }
    }
}

/// The problems of a value read as a list of users.
pub open spec fn users_errors(value: TomlValue) -> Option<Seq<TomlErrorView>> {
    match array_items(value) {
        None => Some(seq![wanted("an array"@, value)]),
        Some(items) => reported(user_item_errors(items)),
    }
}

/// The problems of array items read as scripts, in order.
pub open spec fn script_item_errors(items: Seq<TomlValue>) -> Seq<TomlErrorView>
    decreases items.len(),
{
    if items.len() == 0 {
        Seq::empty()
    } else {
        script_item_errors(items.drop_last()) + match script_errors(items.last()) {
            None => Seq::empty(),
            Some(errors) => errors,
        }
    }
}

/// The problems of a value read as a list of scripts.
pub open spec fn scripts_errors(value: TomlValue) -> Option<Seq<TomlErrorView>> {
    match array_items(value) {
        None => Some(seq![wanted("an array"@, value)]),
        Some(items) => reported(script_item_errors(items)),
    }
}

/// The keys of a machine table.
pub open spec fn machine_fields() -> Seq<Seq<char>> {
    seq![
        "identifier"@,
        "name"@,
        "hardware"@,
        "operating_system"@,
        "users"@,
        "packages"@,
        "scripts"@,
    ]
}

/// The problems of a value read as a machine: the required fields in order,
/// then the collected problems of the package section and the scripts, then
/// keys nobody asked for.
pub open spec fn machine_errors(value: TomlValue) -> Option<Seq<TomlErrorView>> {
    match table_entries(value) {
        None => Some(seq![wanted("a table"@, value)]),
        Some(e) => or_else(
            required(e, "identifier"@, value.span, identifier_errors(field_value(e, "identifier"@))),
            or_else(
                required(e, "name"@, value.span, string_errors(field_value(e, "name"@))),
                or_else(
                    required(e, "hardware"@, value.span, hardware_errors(field_value(e, "hardware"@))),
                    or_else(
                        required(
                            e,
                            "operating_system"@,
                            value.span,
                            operating_system_errors(field_value(e, "operating_system"@)),
                        ),
                        or_else(
                            required(e, "users"@, value.span, users_errors(field_value(e, "users"@))),
                            finalized(
                                e,
                                machine_fields(),
                                value.span,
                                optional(e, "packages"@, packages_errors(field_value(e, "packages"@)))
                                    + optional(
                                    e,
                                    "scripts"@,
                                    scripts_errors(field_value(e, "scripts"@)),
                                ),
                            ),
                        ),
                    ),
                ),
            ),
        ),
    }
}

/// Whether `users` is what the array `value` reads as.
pub open spec fn users_read(value: TomlValue, users: Spanned<Vec<User>>) -> bool {
    let items = array_items(value)->0;
    &&& array_items(value) is Some
    &&& users.span == value.span
    &&& users.value@.len() == items.len()
    &&& forall|i: int|
        #![trigger users.value@[i]]
        0 <= i < items.len() ==> user_read(items[i], users.value@[i])
}

/// Whether `scripts` is what the array `value` reads as.
pub open spec fn scripts_read(value: TomlValue, scripts: Vec<Script>) -> bool {
    let items = array_items(value)->0;
    &&& array_items(value) is Some
    &&& scripts@.len() == items.len()
    &&& forall|i: int|
        #![trigger scripts@[i]]
        0 <= i < items.len() ==> script_read(items[i], scripts@[i])
}

/// Whether `machine` is what the machine table `value` reads as.
pub open spec fn machine_read(value: TomlValue, machine: Machine) -> bool {
    let e = table_entries(value)->0;
    let identifier = field_value(e, "identifier"@);
    &&& table_entries(value) is Some
    &&& string_text(identifier) == Some(machine.identifier.value@)
    &&& machine.identifier.span == identifier.span
    &&& string_text(field_value(e, "name"@)) == Some(machine.name@)
    &&& hardware_read(field_value(e, "hardware"@), machine.hardware)
    &&& operating_system_read(field_value(e, "operating_system"@), machine.operating_system)
    &&& users_read(field_value(e, "users"@), machine.users)
    &&& match machine.packages {
        None => lookup(e, "packages"@) is None,
        Some(p) => lookup(e, "packages"@) is Some && packages_read(field_value(e, "packages"@), p),
    }
    &&& match machine.scripts {
        None => lookup(e, "scripts"@) is None,
        Some(s) => lookup(e, "scripts"@) is Some && scripts_read(field_value(e, "scripts"@), s),
    }
}

/// Reads a list of users.
fn decode_users(value: &TomlValue) -> (outcome: Result<Spanned<Vec<User>>, Vec<TomlError>>)
    ensures
        match outcome {
            Ok(u) => users_errors(*value) is None && users_read(*value, u),
            Err(e) => e@.len() > 0 && users_errors(*value) == Some(error_views(e@)),
        },
{
    let items = match &value.kind {
        TomlKind::Array(items) => items,
        _ => {
            return Err(single(crate::document::wanted_error("an array", value)));
        },
    };
    let mut users: Vec<User> = Vec::new();
    let mut errors: Vec<TomlError> = Vec::new();
    let mut i: usize = 0;
    while i < items.len()
        invariant
            array_items(*value) == Some(items@),
            i <= items@.len(),
            error_views(errors@) == user_item_errors(items@.take(i as int)),
            errors@.len() == 0 ==> users@.len() == i && forall|j: int|
                #![trigger users@[j]]
                0 <= j < i ==> user_read(items@[j], users@[j]),
        decreases items.len() - i,
    {
        proof {
            assert(items@.take(i + 1).drop_last() =~= items@.take(i as int));
        }
        match decode_user(&items[i]) {
            Ok(user) => {
                users.push(user);
                proof {
                    assert(error_views(errors@) =~= user_item_errors(items@.take(i + 1)));
                }
            },
            Err(e) => {
                collect(&mut errors, e);
                proof {
                    assert(error_views(errors@) =~= user_item_errors(items@.take(i + 1)));
                }
            },
        }
        i = i + 1;
    }
    proof {
        assert(items@.take(items@.len() as int) =~= items@);
    }
    if errors.len() > 0 {
        Err(errors)
    } else {
        proof {
            assert(error_views(errors@).len() == 0);
        }
        Ok(Spanned { value: users, span: value.span })
    }
}

/// Reads a list of scripts.
fn decode_scripts(value: &TomlValue) -> (outcome: Result<Vec<Script>, Vec<TomlError>>)
    ensures
        match outcome {
            Ok(s) => scripts_errors(*value) is None && scripts_read(*value, s),
            Err(e) => e@.len() > 0 && scripts_errors(*value) == Some(error_views(e@)),
        },
{
    let items = match &value.kind {
        TomlKind::Array(items) => items,
        _ => {
            return Err(single(crate::document::wanted_error("an array", value)));
        },
    };
    let mut scripts: Vec<Script> = Vec::new();
    let mut errors: Vec<TomlError> = Vec::new();
    let mut i: usize = 0;
    while i < items.len()
        invariant
            array_items(*value) == Some(items@),
            i <= items@.len(),
            error_views(errors@) == script_item_errors(items@.take(i as int)),
            errors@.len() == 0 ==> scripts@.len() == i && forall|j: int|
                #![trigger scripts@[j]]
                0 <= j < i ==> script_read(items@[j], scripts@[j]),
        decreases items.len() - i,
    {
        proof {
            assert(items@.take(i + 1).drop_last() =~= items@.take(i as int));
        }
        match decode_script(&items[i]) {
            Ok(script) => {
                scripts.push(script);
                proof {
                    assert(error_views(errors@) =~= script_item_errors(items@.take(i + 1)));
                }
            },
            Err(e) => {
                collect(&mut errors, e);
                proof {
                    assert(error_views(errors@) =~= script_item_errors(items@.take(i + 1)));
                }
            },
        }
        i = i + 1;
    }
    proof {
        assert(items@.take(items@.len() as int) =~= items@);
    }
    if errors.len() > 0 {
        Err(errors)
    } else {
        proof {
            assert(error_views(errors@).len() == 0);
        }
        Ok(scripts)
    }
}

/// Reads a machine.
pub fn decode_machine(value: &TomlValue) -> (outcome: Result<Machine, Vec<TomlError>>)
    ensures
        match outcome {
            Ok(m) => machine_errors(*value) is None && machine_read(*value, m),
            Err(e) => e@.len() > 0 && machine_errors(*value) == Some(error_views(e@)),
        },
{
    let entries = match open_table(value) {
        Ok(entries) => entries,
        Err(e) => {
            return Err(single(e));
        },
    };
    let identifier = match find_field(entries, "identifier") {
        None => {
            return Err(single(missing_field("identifier", value.span)));
        },
        Some(x) => match decode_identifier(x) {
            Ok(id) => id,
            Err(e) => {
                return Err(last_error(e));
            },
        },
    };
    let name = required_text(entries, "name", value.span)?.value;
    let hardware = match find_field(entries, "hardware") {
        None => {
            return Err(single(missing_field("hardware", value.span)));
        },
        Some(x) => match decode_hardware(x) {
            Ok(h) => h,
            Err(e) => {
                return Err(last_error(e));
            },
        },
    };
    let operating_system = match find_field(entries, "operating_system") {
        None => {
            return Err(single(missing_field("operating_system", value.span)));
        },
        Some(x) => match decode_operating_system(x) {
            Ok(os) => os,
            Err(e) => {
                return Err(last_error(e));
            },
        },
    };
    let users = match find_field(entries, "users") {
        None => {
            return Err(single(missing_field("users", value.span)));
        },
        Some(x) => match decode_users(x) {
            Ok(u) => u,
            Err(e) => {
                return Err(last_error(e));
            },
        },
    };
    let mut collected: Vec<TomlError> = Vec::new();
    proof {
        assert(error_views(collected@) =~= Seq::empty());
    }
    let packages = match find_field(entries, "packages") {
        None => None,
        Some(x) => match decode_packages(x) {
            Ok(p) => Some(p),
            Err(e) => {
                collect(&mut collected, e);
                None
            },
        },
    };
    proof {
        assert(error_views(collected@) =~= optional(
            entries@,
            "packages"@,
            packages_errors(field_value(entries@, "packages"@)),
        ));
    }
    let scripts = match find_field(entries, "scripts") {
        None => None,
        Some(x) => match decode_scripts(x) {
            Ok(s) => Some(s),
            Err(e) => {
                collect(&mut collected, e);
                None
            },
        },
    };
    proof {
        let e = entries@;
        assert(error_views(collected@) =~= optional(
            e,
            "packages"@,
            packages_errors(field_value(e, "packages"@)),
        ) + optional(e, "scripts"@, scripts_errors(field_value(e, "scripts"@))));
    }
    let expected: [&str; 7] = [
        "identifier",
        "name",
        "hardware",
        "operating_system",
        "users",
        "packages",
        "scripts",
    ];
    proof {
        assert(views(expected@) =~= machine_fields());
    }
    finalize(entries, &expected, value.span, collected)?;
    Ok(Machine { identifier, name, hardware, operating_system, users, packages, scripts })
}

// ---- the configuration ----

/// The problems of array items read as machines, in order.
pub open spec fn machine_item_errors(items: Seq<TomlValue>) -> Seq<TomlErrorView>
    decreases items.len(),
{
    if items.len() == 0 {
        Seq::empty()
    } else {
        machine_item_errors(items.drop_last()) + match machine_errors(items.last()) {
            None => Seq::empty(),
            Some(errors) => errors,
        }
    }
}

/// The problems of a value read as a list of machines.
pub open spec fn machines_errors(value: TomlValue) -> Option<Seq<TomlErrorView>> {
    match array_items(value) {
        None => Some(seq![wanted("an array"@, value)]),
        Some(items) => reported(machine_item_errors(items)),
    }
}

/// The keys of a configuration table.
pub open spec fn configuration_fields() -> Seq<Seq<char>> {
    seq!["version"@, "laboratory"@, "machines"@]
}

/// The problems of a document read as a configuration.
pub open spec fn configuration_errors(value: TomlValue) -> Option<Seq<TomlErrorView>> {
    match table_entries(value) {
        None => Some(seq![wanted("a table"@, value)]),
        Some(e) => or_else(
            required(e, "version"@, value.span, u64_errors(field_value(e, "version"@))),
            or_else(
                required(
                    e,
                    "laboratory"@,
                    value.span,
                    laboratory_errors(field_value(e, "laboratory"@)),
                ),
                or_else(
                    required(e, "machines"@, value.span, machines_errors(field_value(e, "machines"@))),
                    finalized(e, configuration_fields(), value.span, Seq::empty()),
                ),
            ),
        ),
    }
}

/// Whether `configuration` is what the document `value` reads as.
pub open spec fn configuration_read(value: TomlValue, configuration: Configuration) -> bool {
    let e = table_entries(value)->0;
    let version = field_value(e, "version"@);
    &&& table_entries(value) is Some
    &&& configuration.version.value == integer_value(version)
    &&& configuration.version.span == version.span
    &&& laboratory_read(field_value(e, "laboratory"@), configuration.laboratory)
    &&& machines_read(field_value(e, "machines"@), configuration.machines)
}

/// Whether `machines` is what the array `value` reads as.
pub open spec fn machines_read(value: TomlValue, machines: Spanned<Vec<Machine>>) -> bool {
    let items = array_items(value)->0;
    &&& array_items(value) is Some
    &&& machines.span == value.span
    &&& machines.value@.len() == items.len()
    &&& forall|i: int|
        #![trigger machines.value@[i]]
        0 <= i < items.len() ==> machine_read(items[i], machines.value@[i])
}

/// Reads a list of machines.
fn decode_machines(value: &TomlValue) -> (outcome: Result<Spanned<Vec<Machine>>, Vec<TomlError>>)
    ensures
        match outcome {
            Ok(m) => machines_errors(*value) is None && machines_read(*value, m),
            Err(e) => e@.len() > 0 && machines_errors(*value) == Some(error_views(e@)),
        },
{
    let items = match &value.kind {
        TomlKind::Array(items) => items,
        _ => {
            return Err(single(crate::document::wanted_error("an array", value)));
        },
    };
    let mut machines: Vec<Machine> = Vec::new();
    let mut errors: Vec<TomlError> = Vec::new();
    let mut i: usize = 0;
    while i < items.len()
        invariant
            array_items(*value) == Some(items@),
            i <= items@.len(),
            error_views(errors@) == machine_item_errors(items@.take(i as int)),
            errors@.len() == 0 ==> machines@.len() == i && forall|j: int|
                #![trigger machines@[j]]
                0 <= j < i ==> machine_read(items@[j], machines@[j]),
        decreases items.len() - i,
    {
        proof {
            assert(items@.take(i + 1).drop_last() =~= items@.take(i as int));
        }
        match decode_machine(&items[i]) {
            Ok(machine) => {
                machines.push(machine);
                proof {
                    assert(error_views(errors@) =~= machine_item_errors(items@.take(i + 1)));
                }
            },
            Err(e) => {
                collect(&mut errors, e);
                proof {
                    assert(error_views(errors@) =~= machine_item_errors(items@.take(i + 1)));
                }
            },
        }
        i = i + 1;
    }
    proof {
        assert(items@.take(items@.len() as int) =~= items@);
    }
    if errors.len() > 0 {
        Err(errors)
    } else {
        proof {
            assert(error_views(errors@).len() == 0);
        }
        Ok(Spanned { value: machines, span: value.span })
    }
}

/// Reads a configuration from its document.
pub fn decode_configuration(value: &TomlValue) -> (outcome: Result<Configuration, Vec<TomlError>>)
    ensures
        match outcome {
            Ok(c) => configuration_errors(*value) is None && configuration_read(*value, c),
            Err(e) => e@.len() > 0 && configuration_errors(*value) == Some(error_views(e@)),
        },
{
    let entries = match open_table(value) {
        Ok(entries) => entries,
        Err(e) => {
            return Err(single(e));
        },
    };
    let version = match find_field(entries, "version") {
        None => {
            return Err(single(missing_field("version", value.span)));
        },
        Some(x) => match take_u64(x) {
            Ok(n) => n,
            Err(e) => {
                return Err(last_error(single(e)));
            },
        },
    };
    let laboratory = match find_field(entries, "laboratory") {
        None => {
            return Err(single(missing_field("laboratory", value.span)));
        },
        Some(x) => match decode_laboratory(x) {
            Ok(l) => l,
            Err(e) => {
                return Err(last_error(e));
            },
        },
    };
    let machines = match find_field(entries, "machines") {
        None => {
            return Err(single(missing_field("machines", value.span)));
        },
        Some(x) => match decode_machines(x) {
            Ok(m) => m,
            Err(e) => {
                return Err(last_error(e));
            },
        },
    };
    let expected: [&str; 3] = ["version", "laboratory", "machines"];
    let none: Vec<TomlError> = Vec::new();
    proof {
        assert(views(expected@) =~= configuration_fields());
        assert(error_views(none@) =~= Seq::empty());
    }
    finalize(entries, &expected, value.span, none)?;
    Ok(Configuration { version, laboratory, machines })
}


/// What a parsed document gives: the configuration, the report of the
/// document's parse error, or the report of its first problem.
pub open spec fn document_outcome(
    document: Result<TomlValue, TomlError>,
    outcome: Result<Configuration, Validation>,
) -> bool {
    match document {
        Err(e) => outcome matches Err(v) && v@ == invalid_configuration(e@),
        Ok(tree) => match configuration_errors(tree) {
            None => outcome matches Ok(c) && configuration_read(tree, c),
            Some(errors) => outcome matches Err(v) && v@ == invalid_configuration(errors[0]),
        },
    }
}

impl Configuration {
    /// The configuration that a parsed document gives, or the report of why
    /// it gives none.
    pub fn from_document(document: Result<TomlValue, TomlError>) -> (outcome: Result<
        Configuration,
        Validation,
    >)
        ensures
            document_outcome(document, outcome),
    {
        match document {
            Err(e) => Err(Validation::from_toml_error(e)),
            Ok(tree) => match decode_configuration(&tree) {
                Ok(configuration) => Ok(configuration),
                Err(errors) => Err(Validation::from_toml_deserialize_error(errors)),
            },
        }
    }

    /// Parses and reads the configuration text `source_code`.
    pub fn parse(source_code: &str) -> (outcome: Result<Configuration, Validation>)
        ensures
            document_outcome(toml_document(source_code@), outcome),
    {
        Configuration::from_document(parse_toml(source_code))
    }
}


// ---- laws ----

/// A network reads back from the word it is written as.
pub proof fn lemma_network_word_round_trip(network: Network, value: TomlValue)
    requires
        string_text(value) == Some(network_name(network)),
    ensures
        network_errors(value) is None,
        network_of(string_text(value)->0) == network,
{
    let words = network_words();
    assert(words[0] == "isolated"@ && words[1] == "preserved"@ && words[2] == "private"@
        && words[3] == "public"@);
    reveal_strlit("isolated");
    reveal_strlit("preserved");
    reveal_strlit("private");
    reveal_strlit("public");
    assert("isolated"@.len() == 8 && "preserved"@.len() == 9 && "private"@.len() == 7
        && "public"@.len() == 6);
    match network {
        Network::Isolated => assert(words[0] == network_name(network)),
        Network::Preserved => assert(words[1] == network_name(network)),
        Network::Private => assert(words[2] == network_name(network)),
        Network::Public => assert(words[3] == network_name(network)),
    }
}

/// A package manager reads back from the word it is written as.
pub proof fn lemma_manager_word_round_trip(manager: Manager, value: TomlValue)
    requires
        string_text(value) == Some(manager_name(manager)),
    ensures
        manager_word_errors(value) is None,
        manager_of(string_text(value)->0) == manager,
{
    let words = manager_words();
    assert(words[0] == "apt"@ && words[1] == "dnf"@ && words[2] == "nix"@ && words[3] == "winget"@
        && words[4] == "chocolatey"@ && words[5] == "pacman"@);
    reveal_strlit("pacman");
    reveal_strlit("apt");
    reveal_strlit("dnf");
    reveal_strlit("nix");
    reveal_strlit("winget");
    reveal_strlit("chocolatey");
    assert("pacman"@.len() == 6 && "pacman"@[0] != "winget"@[0]);
    assert("dnf"@ != "apt"@) by {
        assert("dnf"@[0] != "apt"@[0]);
    }
    assert("nix"@ != "apt"@) by {
        assert("nix"@[0] != "apt"@[0]);
    }
    assert("nix"@ != "dnf"@) by {
        assert("nix"@[0] != "dnf"@[0]);
    }
    assert("winget"@.len() != 3);
    assert("chocolatey"@.len() != 3 && "chocolatey"@.len() != "winget"@.len());
}

/// A package manager read from a word is written as that word, so reading
/// and writing a manager's word are inverse.
pub proof fn lemma_manager_read_names_word(text: Seq<char>)
    requires
        manager_words().contains(text),
    ensures
        manager_name(manager_of(text)) == text,
{
    let words = manager_words();
    let j = choose|j: int| 0 <= j < words.len() && words[j] == text;
    reveal_strlit("apt");
    reveal_strlit("dnf");
    reveal_strlit("nix");
    reveal_strlit("winget");
    reveal_strlit("chocolatey");
    reveal_strlit("pacman");
    assert(words[0] == "apt"@ && words[1] == "dnf"@ && words[2] == "nix"@ && words[3] == "winget"@
        && words[4] == "chocolatey"@ && words[5] == "pacman"@);
    assert("dnf"@[0] != "apt"@[0] && "nix"@[0] != "apt"@[0] && "nix"@[0] != "dnf"@[0]);
    assert("pacman"@[0] != "winget"@[0] && "chocolatey"@.len() == 10 && "winget"@.len() == 6);
    assert(j == 0 || j == 1 || j == 2 || j == 3 || j == 4 || j == 5);
}

/// The manager a package section reads as is written as the word it was
/// read from.
pub proof fn lemma_decoded_manager_names_its_word(value: TomlValue, packages: Packages)
    requires
        packages_errors(value) is None,
        packages_read(value, packages),
    ensures
        manager_name(packages.manager.value) == string_text(
            field_value(table_entries(value)->0, "manager"@),
        )->0,
{
    let e = table_entries(value)->0;
    let text = string_text(field_value(e, "manager"@))->0;
    assert(manager_word_errors(field_value(e, "manager"@)) is None);
    lemma_manager_read_names_word(text);
}

/// A failure policy reads back from the word it is written as.
pub proof fn lemma_failure_word_round_trip(policy: OnFailure, text: Seq<char>)
    requires
        text == on_failure_name(policy),
    ensures
        failure_words().contains(text),
        failure_of(text) == policy,
{
    let words = failure_words();
    assert(words[0] == "warn"@ && words[1] == "fail"@ && words[2] == "error"@ && words[3] == "ignore"@);
    reveal_strlit("warn");
    reveal_strlit("fail");
    reveal_strlit("error");
    reveal_strlit("ignore");
    assert("fail"@[0] != "warn"@[0] && "error"@.len() == 5 && "ignore"@.len() == 6 && "warn"@.len() == 4
        && "fail"@.len() == 4);
    match policy {
        OnFailure::Warn => assert(words[0] == text),
        OnFailure::Fail => assert(words[1] == text),
        OnFailure::Error => assert(words[2] == text),
        OnFailure::Ignore => assert(words[3] == text),
    }
}

/// A configuration without a format version is refused, for that reason
/// alone.
pub proof fn lemma_missing_version_refused(value: TomlValue)
    requires
        table_entries(value) matches Some(e) && lookup(e, "version"@) is None,
    ensures
        configuration_errors(value) == Some(
            seq![TomlErrorView { kind: TomlErrorKindView::MissingField { field: "version"@ }, span: value.span }],
        ),
{
}

/// Keys that nobody asked for stay among the remaining keys.
proof fn lemma_stray_key_remains(entries: Seq<TomlEntry>, expected: Seq<Seq<char>>, i: int)
    requires
        0 <= i < entries.len(),
        !expected.contains(entries[i].key.value@),
    ensures
        remaining_keys(entries, expected).len() > 0,
    decreases entries.len(),
{
    if i < entries.len() - 1 {
        lemma_stray_key_remains(entries.drop_last(), expected, i);
    }
}

/// A laboratory table with a key other than `name`, `network` and
/// `provider` is refused, however good its fields are.
pub proof fn lemma_unknown_laboratory_key_refused(value: TomlValue, i: int)
    requires
        table_entries(value) matches Some(e) && 0 <= i < e.len() && !laboratory_fields().contains(
            e[i].key.value@,
        ),
    ensures
        laboratory_errors(value) is Some,
{
    let e = table_entries(value)->0;
    lemma_stray_key_remains(e, laboratory_fields(), i);
}

} // verus!
