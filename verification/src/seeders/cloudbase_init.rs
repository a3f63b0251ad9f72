//! The configuration drive of Windows guests, read by cloudbase-init: the
//! rendered documents, the declared scripts with a manifest that lists them,
//! written into an ISO 9660 image that is checked before it is handed on.

use crate::errors::seeders::Seeders;
use crate::laboratories::machines::machine::Machine;
use crate::laboratories::machines::packages::{Manager, manager_name};
use crate::laboratories::machines::script::{Script, on_failure_name};
use crate::package_managers::{packages_command, setup_command};
use crate::paths::{joined, last_segment, names_file, path_file_name, portable_path, resolve, text_of};
use crate::sequences::{first_some, lemma_first_some_at, lemma_first_some_none, texts};
use crate::text::{decimal, decimal_string, lines, lines_of, owned, views};
use crate::template::{
    TemplateContext, TemplateContextView, TemplateField, TemplateFieldView, TemplateValue, TemplateValueView,
    empty_context, insert, json_document, le_bytes, pretty_json, record_view, utf16_units, utf16le,
};
use vstd::prelude::*;

verus! {

/// The largest seed image handed on, 64 MiB.
pub const MAX_SEED_BYTES: usize = 67108864;

/// The sector size of the seed image.
pub const ISO_SECTOR_SIZE: usize = 2048;

/// The volume name that cloudbase-init looks for.
pub const SEED_VOLUME_NAME: &'static str = "cidata";

/// Where the first volume descriptor of an ISO 9660 image starts: sector 16
/// of 2048 bytes.
pub const DESCRIPTOR_OFFSET: usize = 32768;

/// The seconds a script may run when the configuration gives no timeout.
pub const DEFAULT_SCRIPT_TIMEOUT_SECONDS: u32 = 300;

/// The reason given for an image that lacks the ISO 9660 signature.
pub const NOT_ISO9660_REASON: &'static str = "generated cloudbase-init ISO is not a valid ISO 9660 image";

/// The reason given for a UTF-16LE script whose body has an odd length.
pub const ODD_UTF16_REASON: &'static str = "UTF-16LE script has an odd byte length";

/// The standard identifier "CD001" of a volume descriptor.
pub open spec fn iso9660_signature() -> Seq<u8> {
    seq![67u8, 68u8, 48u8, 48u8, 49u8]
}

/// Whether the first volume descriptor carries the standard identifier.
pub open spec fn carries_iso9660_signature(payload: Seq<u8>) -> bool {
    &&& payload.len() >= DESCRIPTOR_OFFSET + 6
    &&& payload.subrange(DESCRIPTOR_OFFSET + 1, DESCRIPTOR_OFFSET + 6) == iso9660_signature()
}

/// The reason given for an image of `length` bytes above the limit.
pub open spec fn too_large_reason(length: nat) -> Seq<char> {
    "generated cloudbase-init ISO is "@ + decimal(length) + " bytes, which exceeds the 64 MiB limit"@
}

/// Why a seed image may not be handed on, if it may not: above 64 MiB, or
/// without the ISO 9660 signature.
pub open spec fn artifact_verdict(payload: Seq<u8>) -> Option<Seq<char>> {
    if payload.len() > MAX_SEED_BYTES {
        Some(too_large_reason(payload.len()))
    } else if !carries_iso9660_signature(payload) {
        Some(NOT_ISO9660_REASON@)
    } else {
        None
    }
}

/// A seed image waiting to be checked.
pub struct WindowsSeedArtifact {
    payload: Vec<u8>,
    byte_length: usize,
}

impl View for WindowsSeedArtifact {
    type V = Seq<u8>;

    closed spec fn view(&self) -> Seq<u8> {
        self.payload@
    }
}

impl WindowsSeedArtifact {
    #[verifier::type_invariant]
    spec fn length_recorded(self) -> bool {
        self.byte_length == self.payload@.len()
    }

    /// Takes an image to check.
    pub fn new(payload: Vec<u8>) -> (artifact: Self)
        ensures
            artifact@ == payload@,
    {
        let byte_length = payload.len();
        WindowsSeedArtifact { payload, byte_length }
    }

    /// The length of the image in bytes, as recorded when it was taken.
    pub fn byte_length(&self) -> (length: usize)
        ensures
            length == self@.len(),
    {
        proof {
            use_type_invariant(self);
        }
        self.byte_length
    }

    /// Hands the image on.
    pub fn into_payload(self) -> (payload: Vec<u8>)
        ensures
            payload@ == self@,
    {
        self.payload
    }

    /// Refuses an image above 64 MiB or one without the ISO 9660 signature.
    pub fn validate(&self) -> (outcome: Result<(), Seeders>)
        ensures
            match (outcome, artifact_verdict(self@)) {
                (Ok(()), None) => true,
                (Err(Seeders::IsoCreationFailed { reason }), Some(expected)) => reason@ == expected,
                _ => false,
            },
    {
        proof {
            use_type_invariant(self);
        }
        if self.byte_length > MAX_SEED_BYTES {
            let mut reason = owned("generated cloudbase-init ISO is ");
            let numeral = decimal_string(self.byte_length as u64);
            reason.append(numeral.as_str());
            reason.append(" bytes, which exceeds the 64 MiB limit");
            return Err(Seeders::IsoCreationFailed { reason });
        }
        let p = &self.payload;
        let found = p.len() >= DESCRIPTOR_OFFSET + 6 && p[DESCRIPTOR_OFFSET + 1] == 67u8
            && p[DESCRIPTOR_OFFSET + 2] == 68u8 && p[DESCRIPTOR_OFFSET + 3] == 48u8
            && p[DESCRIPTOR_OFFSET + 4] == 48u8 && p[DESCRIPTOR_OFFSET + 5] == 49u8;
        proof {
            if p@.len() >= DESCRIPTOR_OFFSET + 6 {
                let window = p@.subrange(DESCRIPTOR_OFFSET + 1, DESCRIPTOR_OFFSET + 6);
                if found {
                    assert(window =~= iso9660_signature());
                } else {
                    assert(window != iso9660_signature()) by {
                        if window == iso9660_signature() {
                            assert(window[0] == p@[DESCRIPTOR_OFFSET + 1]);
                            assert(window[1] == p@[DESCRIPTOR_OFFSET + 2]);
                            assert(window[2] == p@[DESCRIPTOR_OFFSET + 3]);
                            assert(window[3] == p@[DESCRIPTOR_OFFSET + 4]);
                            assert(window[4] == p@[DESCRIPTOR_OFFSET + 5]);
                        }
                    }
                }
            }
        }
        if !found {
            return Err(Seeders::IsoCreationFailed { reason: owned(NOT_ISO9660_REASON) });
        }
        Ok(())
    }
}

/// The text that a valid UTF-16 sequence decodes to, or none where a
/// surrogate is unpaired.
pub open spec fn utf16_decoded(units: Seq<u16>) -> Option<Seq<char>>
    decreases units.len(),
{
    if units.len() == 0 {
        Some(Seq::empty())
    } else {
        let u = units[0] as int;
        if u < 0xD800 || u > 0xDFFF {
            match utf16_decoded(units.skip(1)) {
                Some(rest) => Some(seq![u as char] + rest),
                None => None,
            }
        } else if u <= 0xDBFF && units.len() >= 2 && 0xDC00 <= units[1] <= 0xDFFF {
            let c = 0x10000 + (u - 0xD800) * 1024 + (units[1] - 0xDC00);
            match utf16_decoded(units.skip(2)) {
                Some(rest) => Some(seq![c as char] + rest),
                None => None,
            }
        } else {
            None
        }
    }
}

/// Whether a byte continues a UTF-8 sequence (`10xxxxxx`).
pub open spec fn continues(b: u8) -> bool {
    0x80 <= b <= 0xBF
}

/// The character `c` before the rest of a decoding, where the rest decodes.
pub open spec fn decoded_before(c: int, rest: Option<Seq<char>>) -> Option<Seq<char>> {
    match rest {
        Some(r) => Some(seq![c as char] + r),
        None => None,
    }
}

/// The text of well-formed UTF-8 bytes (RFC 3629: no overlong forms, no
/// surrogates, nothing above U+10FFFF), or none where they are not.
pub open spec fn utf8_decoded(bytes: Seq<u8>) -> Option<Seq<char>>
    decreases bytes.len(),
{
    if bytes.len() == 0 {
        Some(Seq::empty())
    } else {
        let b0 = bytes[0] as int;
        if b0 < 0x80 {
            decoded_before(b0, utf8_decoded(bytes.skip(1)))
        } else if 0xC2 <= b0 <= 0xDF && bytes.len() >= 2 && continues(bytes[1]) {
            decoded_before((b0 - 0xC0) * 64 + (bytes[1] - 0x80), utf8_decoded(bytes.skip(2)))
        } else if 0xE0 <= b0 <= 0xEF && bytes.len() >= 3 && continues(bytes[1]) && continues(bytes[2])
            && (b0 == 0xE0 ==> bytes[1] >= 0xA0) && (b0 == 0xED ==> bytes[1] <= 0x9F) {
            decoded_before(
                (b0 - 0xE0) * 4096 + (bytes[1] - 0x80) * 64 + (bytes[2] - 0x80),
                utf8_decoded(bytes.skip(3)),
            )
        } else if 0xF0 <= b0 <= 0xF4 && bytes.len() >= 4 && continues(bytes[1]) && continues(bytes[2])
            && continues(bytes[3]) && (b0 == 0xF0 ==> bytes[1] >= 0x90) && (b0 == 0xF4 ==> bytes[1]
            <= 0x8F) {
            decoded_before(
                (b0 - 0xF0) * 262144 + (bytes[1] - 0x80) * 4096 + (bytes[2] - 0x80) * 64 + (bytes[3]
                    - 0x80),
                utf8_decoded(bytes.skip(4)),
            )
        } else {
            None
        }
    }
}

/// `String::from_utf16`. The error's text is left unsaid.
#[verifier::external_body]
fn string_from_utf16(units: &[u16]) -> (text: Result<String, String>)
    ensures
        match text {
            Ok(t) => utf16_decoded(units@) == Some(t@),
            Err(_) => utf16_decoded(units@) is None,
        },
{
    String::from_utf16(units).map_err(|error| error.to_string())
}

/// `String::from_utf8`: the text of well-formed UTF-8, as `utf8_decoded`
/// writes it out, and an error otherwise. The error's text is left unsaid.
#[verifier::external_body]
fn string_from_utf8(bytes: Vec<u8>) -> (text: Result<String, String>)
    ensures
        match text {
            Ok(t) => utf8_decoded(bytes@) == Some(t@),
            Err(_) => utf8_decoded(bytes@) is None,
        },
{
    String::from_utf8(bytes).map_err(|error| error.to_string())
}

/// Whether `bytes` begins with `prefix`.
pub open spec fn has_prefix(bytes: Seq<u8>, prefix: Seq<u8>) -> bool {
    bytes.len() >= prefix.len() && bytes.take(prefix.len() as int) == prefix
}

/// The byte-order mark of UTF-16LE.
pub open spec fn utf16le_mark() -> Seq<u8> {
    seq![0xFFu8, 0xFEu8]
}

/// The byte-order mark of UTF-8.
pub open spec fn utf8_mark() -> Seq<u8> {
    seq![0xEFu8, 0xBBu8, 0xBFu8]
}

/// The code units of a UTF-16LE body, two bytes each, low byte first.
pub open spec fn le_units(bytes: Seq<u8>) -> Seq<u16> {
    Seq::new(bytes.len() / 2, |i: int| (bytes[2 * i] + 256 * bytes[2 * i + 1]) as u16)
}

/// Whether a script is UTF-16LE with a body of odd length.
pub open spec fn odd_utf16(bytes: Seq<u8>) -> bool {
    has_prefix(bytes, utf16le_mark()) && (bytes.len() - 2) % 2 == 1
}

/// The text of a script file: UTF-16LE after its byte-order mark, or else
/// UTF-8 with an optional byte-order mark; none where it does not decode.
pub open spec fn script_text(bytes: Seq<u8>) -> Option<Seq<char>> {
    if has_prefix(bytes, utf16le_mark()) {
        if odd_utf16(bytes) {
            None
        } else {
            utf16_decoded(le_units(bytes.skip(2)))
        }
    } else if has_prefix(bytes, utf8_mark()) {
        utf8_decoded(bytes.skip(3))
    } else {
        utf8_decoded(bytes)
    }
}

fn bytes_from(bytes: &[u8], start: usize) -> (tail: Vec<u8>)
    requires
        start <= bytes@.len(),
    ensures
        tail@ == bytes@.skip(start as int),
{
    let mut out: Vec<u8> = Vec::new();
    let mut i: usize = start;
    while i < bytes.len()
        invariant
            start <= i <= bytes@.len(),
            out@ == bytes@.subrange(start as int, i as int),
        decreases bytes.len() - i,
    {
        out.push(bytes[i]);
        proof {
            assert(out@ =~= bytes@.subrange(start as int, i + 1));
        }
        i = i + 1;
    }
    proof {
        assert(out@ =~= bytes@.skip(start as int));
    }
    out
}

/// The path under which a declared script is read, whether the declared
/// path was absolute (and so is read as written), and its final component.
pub struct ScriptLocation {
    pub path: String,
    pub absolute: bool,
    pub file_name: Option<String>,
}

/// A script as it is written to the seed image.
pub struct SeedScript {
    /// Its path inside the image.
    pub path: String,
    pub timeout_seconds: u32,
    pub on_failure: String,
    pub content: String,
}

/// The path of a script inside the image: under `scripts/`, by its file
/// name, or `script` where it has none.
pub open spec fn seed_script_path(location: ScriptLocation) -> Seq<char> {
    "scripts/"@ + match location.file_name {
        Some(name) => name@,
        None => "script"@,
    }
}

/// Whether `entry` is the seed entry of `script`, read from `location` with
/// the text `content`: the timeout defaults to 300 seconds and the policy to
/// `warn`.
pub open spec fn is_seed_script(
    entry: SeedScript,
    script: Script,
    location: ScriptLocation,
    content: Seq<char>,
) -> bool {
    &&& entry.path@ == seed_script_path(location)
    &&& entry.timeout_seconds == match script.timeout_seconds {
        Some(t) => t.value,
        None => DEFAULT_SCRIPT_TIMEOUT_SECONDS,
    }
    &&& entry.on_failure@ == match script.on_failure {
        Some(policy) => on_failure_name(policy.value),
        None => "warn"@,
    }
    &&& entry.content@ == content
}

/// The text read for a script, where both reading and decoding succeeded.
pub open spec fn read_text(read: Result<Vec<u8>, String>) -> Option<Seq<char>> {
    match read {
        Ok(bytes) => script_text(bytes@),
        Err(_) => None,
    }
}

/// Whether `entry` is the seed entry of `script` read from `location`, the
/// read having given a text.
pub open spec fn entry_of_read(
    entry: SeedScript,
    script: Script,
    location: ScriptLocation,
    read: Result<Vec<u8>, String>,
) -> bool {
    match read_text(read) {
        Some(t) => is_seed_script(entry, script, location, t),
        None => false,
    }
}

/// The scripts of a machine, none when it declares none.
pub open spec fn declared_scripts(machine: Machine) -> Seq<Script> {
    match machine.scripts {
        Some(scripts) => scripts@,
        None => Seq::empty(),
    }
}

/// The position of the first script that could not be read or decoded.
pub open spec fn first_unreadable(reads: Seq<Result<Vec<u8>, String>>) -> Option<int> {
    first_some(Seq::new(reads.len(), |i: int| if read_text(reads[i]) is None {
        Some(i)
    } else {
        None
    }))
}

/// Whether `error` is what a script at `path` whose bytes do not decode
/// reports: a read failure for that path, with the odd-length reason for a
/// UTF-16LE body of odd length (and otherwise a reason of the decoder).
pub open spec fn is_decode_failure(error: Seeders, path: Seq<char>, bytes: Seq<u8>) -> bool {
    match error {
        Seeders::ScriptReadFailed { path: reported, reason } => {
            &&& reported@ == path
            &&& (odd_utf16(bytes) ==> reason@ == ODD_UTF16_REASON@)
        },
        _ => false,
    }
}

/// Whether `error` is what the failed read `read` of `location` reports:
/// the read's own reason, or the failure to decode what was read.
pub open spec fn is_read_failure(
    error: Seeders,
    location: ScriptLocation,
    read: Result<Vec<u8>, String>,
) -> bool {
    match read {
        Err(r) => error matches Seeders::ScriptReadFailed { path, reason } && path@
            == location.path@ && reason@ == r@,
        Ok(bytes) => is_decode_failure(error, location.path@, bytes@),
    }
}

/// The manifest entry of a script: its path inside the image, its timeout
/// in seconds and its failure policy.
pub open spec fn manifest_entry(script: SeedScript) -> Seq<(Seq<char>, TemplateFieldView)> {
    seq![
        ("path"@, TemplateFieldView::Text(script.path@)),
        ("timeout_seconds"@, TemplateFieldView::Number(script.timeout_seconds as u64)),
        ("on_failure"@, TemplateFieldView::Text(script.on_failure@)),
    ]
}

/// The manifest document: `scripts`, the entries of the scripts in order.
pub open spec fn manifest_view(scripts: Seq<SeedScript>) -> TemplateContextView {
    TemplateContextView {
        entries: seq![
            (
                "scripts"@,
                TemplateValueView::Records(scripts.map_values(|s: SeedScript| manifest_entry(s))),
            ),
        ],
    }
}

/// The manifest document of the scripts.
pub fn manifest_document(scripts: &Vec<SeedScript>) -> (document: TemplateContext)
    ensures
        document@ == manifest_view(scripts@),
{
    let mut entries: Vec<Vec<(String, TemplateField)>> = Vec::new();
    let mut i: usize = 0;
    while i < scripts.len()
        invariant
            i <= scripts.len(),
            entries@.len() == i,
            forall|j: int|
                0 <= j < i ==> record_view(#[trigger] entries@[j]@) == manifest_entry(scripts@[j]),
        decreases scripts.len() - i,
    {
        let script = &scripts[i];
        let entry = vec![
            (owned("path"), TemplateField::Text(owned(script.path.as_str()))),
            (owned("timeout_seconds"), TemplateField::Number(script.timeout_seconds as u64)),
            (owned("on_failure"), TemplateField::Text(owned(script.on_failure.as_str()))),
        ];
        proof {
            assert(record_view(entry@) =~= manifest_entry(scripts@[i as int]));
        }
        entries.push(entry);
        i = i + 1;
    }
    proof {
        assert(entries@.map_values(|r: Vec<(String, TemplateField)>| record_view(r@)) =~= scripts@.map_values(
            |s: SeedScript| manifest_entry(s),
        ));
    }
    let mut document = empty_context();
    insert(&mut document, "scripts", TemplateValue::Records(entries));
    proof {
        assert(document@.entries =~= manifest_view(scripts@).entries);
    }
    document
}

/// The manifest of the scripts: nothing when there are none, the JSON
/// otherwise, and an empty list where the JSON writer fails.
pub open spec fn manifest_text(scripts: Seq<SeedScript>) -> Seq<char> {
    if scripts.len() == 0 {
        Seq::empty()
    } else {
        match pretty_json(manifest_view(scripts)) {
            Some(json) => json,
            None => "{\"scripts\":[]}"@,
        }
    }
}

/// The packages step of the user data: the command that sets the manager up,
/// where one is needed, and the lines of the install command.
pub struct PackagesContext {
    pub setup: Option<String>,
    pub install: Vec<String>,
}

/// The package names of a machine's package section.
pub open spec fn package_names(machine: Machine) -> Seq<Seq<char>> {
    match machine.packages {
        Some(p) => p.install.value@.map_values(|name: crate::span::Spanned<String>| name.value@),
        None => Seq::empty(),
    }
}

/// The files of the seed image, in order: the three documents, the manifest
/// when there is one, then each script under its path.
pub open spec fn seed_file_list(
    meta_data: Seq<char>,
    configuration: Seq<char>,
    user_data: Seq<char>,
    manifest: Seq<char>,
    scripts: Seq<SeedScript>,
) -> Seq<(Seq<char>, Seq<char>)> {
    let documents = seq![
        ("meta-data"@, meta_data),
        ("cloudbase-init.conf"@, configuration),
        ("user-data"@, user_data),
    ];
    let listed = if manifest.len() == 0 {
        documents
    } else {
        documents.push(("scripts.json"@, manifest))
    };
    listed + scripts.map_values(|s: SeedScript| (s.path@, s.content@))
}

/// The views of a list of file names and contents.
pub open spec fn file_views(files: Seq<(String, String)>) -> Seq<(Seq<char>, Seq<char>)> {
    files.map_values(|f: (String, String)| (f.0@, f.1@))
}

/// Options of the ISO writer, held opaquely.
#[verifier::external_type_specification]
#[verifier::external_body]
pub struct ExIsoFormatOptions(hadris_iso::write::options::IsoFormatOptions);

/// The files of an ISO image before it is written, held opaquely.
#[verifier::external_type_specification]
#[verifier::external_body]
pub struct ExInputFiles(hadris_iso::write::InputFiles);

/// The ISO writer's options for a volume named `volume_name` with sectors of
/// `sector_size` bytes: Joliet and Rock Ridge, forward slashes, names stored
/// as given.
#[verifier::external_body]
fn iso_options(volume_name: &str, sector_size: usize) -> hadris_iso::write::options::IsoFormatOptions {
    hadris_iso::write::options::IsoFormatOptions {
        volume_name: volume_name.to_owned(),
        system_id: None,
        volume_set_id: None,
        publisher_id: None,
        preparer_id: None,
        application_id: None,
        sector_size,
        path_separator: hadris_iso::read::PathSeparator::ForwardSlash,
        features: hadris_iso::write::options::CreationFeatures::extensions(),
        strict_charset: false,
    }
}

/// The files, as the ISO writer takes them: each at the root, its contents
/// the UTF-8 bytes of its text.
#[verifier::external_body]
fn iso_input(files: &Vec<(String, String)>) -> hadris_iso::write::InputFiles {
    hadris_iso::write::InputFiles {
        path_separator: hadris_iso::read::PathSeparator::ForwardSlash,
        files: files.iter().map(|(name, contents)| hadris_iso::write::File::File {
            name: std::sync::Arc::new(name.clone()),
            contents: contents.as_bytes().to_vec(),
        }).collect(),
    }
}

/// `hadris_iso::write::estimator::estimate(..).minimum_bytes()`: the bytes
/// the image needs. Nothing is stated of the number.
#[verifier::external_body]
fn iso_minimum_bytes(
    input: &hadris_iso::write::InputFiles,
    options: &hadris_iso::write::options::IsoFormatOptions,
) -> u64 {
    hadris_iso::write::estimator::estimate(input, options).minimum_bytes()
}

/// `IsoImageWriter::create` into the zeroed `buffer`, which is handed back
/// whole. The writer refuses sectors of other than 2048 bytes, writes the
/// volume descriptors from sector 16 on, and before it succeeds reads each of
/// them back and refuses one without the standard identifier; the first is
/// always a primary or supplementary descriptor. So a written image carries
/// the ISO 9660 signature. The image records the time at which it was made,
/// so its other bytes are left unsaid, and so is the error's text.
#[verifier::external_body]
fn iso_write(
    buffer: Vec<u8>,
    input: hadris_iso::write::InputFiles,
    options: hadris_iso::write::options::IsoFormatOptions,
) -> (written: Result<Vec<u8>, String>)
    ensures
        written matches Ok(image) ==> carries_iso9660_signature(image@),
{
    let mut cursor = std::io::Cursor::new(buffer);
    match hadris_iso::write::IsoImageWriter::create(&mut cursor, input, options) {
        Ok(_) => Ok(cursor.into_inner()),
        Err(error) => Err(error.to_string()),
    }
}

/// The cloudbase-init seeder.
#[derive(Debug, Clone, Copy)]
pub struct CloudbaseInit;

/// Whether `context` is what the package section of `machine` gives for the
/// user data: nothing without a section; the install lines of the manager's
/// command, with the command that sets the manager up where one is needed;
/// or the refusal where the manager gives no install command.
pub open spec fn packages_outcome(machine: Machine, context: Result<Option<PackagesContext>, Seeders>) -> bool {
    match machine.packages {
        None => context matches Ok(None),
        Some(p) => match packages_command(p.manager.value, package_names(machine)) {
            None => context matches Err(Seeders::PackageInstallCommandUnavailable { manager })
                && manager@ == manager_name(p.manager.value),
            Some(command) => context matches Ok(Some(c)) && texts(c.install@) == lines_of(command)
                && match (c.setup, setup_command(p.manager.value, machine.operating_system)) {
                (Some(a), Some(b)) => a@ == b,
                (None, None) => true,
                _ => false,
            },
        },
    }
}

impl CloudbaseInit {
    /// The seeder's name.
    pub fn name(&self) -> (name: &'static str)
        ensures
            name@ == "cloudbase-init"@,
    {
        "cloudbase-init"
    }

    /// Decodes a script file read from `path`: UTF-16LE after its byte-order
    /// mark, or else UTF-8 with an optional byte-order mark.
    pub fn read_script(&self, path: &str, bytes: &[u8]) -> (text: Result<String, Seeders>)
        ensures
            match text {
                Ok(t) => script_text(bytes@) == Some(t@),
                Err(e) => script_text(bytes@) is None && is_decode_failure(e, path@, bytes@),
            },
    {
        let n = bytes.len();
        if n >= 2 && bytes[0] == 0xFFu8 && bytes[1] == 0xFEu8 {
            proof {
                assert(bytes@.take(2) =~= utf16le_mark());
            }
            if (n - 2) % 2 == 1 {
                return Err(Seeders::ScriptReadFailed { path: owned(path), reason: owned(ODD_UTF16_REASON) });
            }
            let mut units: Vec<u16> = Vec::new();
            let mut i: usize = 0;
            while i < (n - 2) / 2
                invariant
                    n == bytes@.len(),
                    n >= 2,
                    (n - 2) % 2 == 0,
                    i <= (n - 2) / 2,
                    units@ == le_units(bytes@.skip(2)).take(i as int),
                decreases (n - 2) / 2 - i,
            {
                let low = bytes[2 + 2 * i] as u16;
                let high = bytes[3 + 2 * i] as u16;
                units.push(low + 256 * high);
                proof {
                    assert(units@ =~= le_units(bytes@.skip(2)).take(i + 1));
                }
                i = i + 1;
            }
            proof {
                assert(units@ =~= le_units(bytes@.skip(2)));
            }
            return match string_from_utf16(units.as_slice()) {
                Ok(t) => Ok(t),
                Err(reason) => Err(Seeders::ScriptReadFailed { path: owned(path), reason }),
            };
        }
        let body = if n >= 3 && bytes[0] == 0xEFu8 && bytes[1] == 0xBBu8 && bytes[2] == 0xBFu8 {
            proof {
                assert(bytes@.take(3) =~= utf8_mark());
            }
            bytes_from(bytes, 3)
        } else {
            proof {
                if has_prefix(bytes@, utf8_mark()) {
                    assert(bytes@.take(3)[0] == bytes@[0]);
                }
                if has_prefix(bytes@, utf16le_mark()) {
                    assert(bytes@.take(2)[0] == bytes@[0]);
                    assert(bytes@.take(2)[1] == bytes@[1]);
                }
            }
            bytes_from(bytes, 0)
        };
        proof {
            assert(bytes@.skip(0) =~= bytes@);
            if has_prefix(bytes@, utf16le_mark()) {
                assert(bytes@.take(2)[0] == bytes@[0]);
            }
        }
        match string_from_utf8(body) {
            Ok(t) => Ok(t),
            Err(reason) => Err(Seeders::ScriptReadFailed { path: owned(path), reason }),
        }
    }
    /// Where each declared script is read: its path as written when absolute,
    /// else joined to `parent`, with the final component of that path. For a
    /// portable parent and script path the location is their join: a
    /// relative script is read from the configuration's directory, never
    /// from the working directory.
    pub fn script_locations(&self, machine: &Machine, parent: &str) -> (locations: Vec<
        ScriptLocation,
    >)
        ensures
            locations@.len() == declared_scripts(*machine).len(),
            forall|i: int|
                #![trigger locations@[i]]
                0 <= i < locations@.len() && locations@[i].absolute ==> locations@[i].path@
                    == declared_scripts(*machine)[i].path.value@,
            forall|i: int|
                #![trigger locations@[i]]
                0 <= i < locations@.len() && portable_path(parent@) && portable_path(
                    declared_scripts(*machine)[i].path.value@,
                ) ==> joined(parent@, declared_scripts(*machine)[i].path.value@, locations@[i].path@),
            forall|i: int|
                #![trigger locations@[i]]
                0 <= i < locations@.len() && names_file(locations@[i].path@) ==> text_of(
                    locations@[i].file_name,
                ) == Some(last_segment(locations@[i].path@)),
    {
        let mut locations: Vec<ScriptLocation> = Vec::new();
        if let Some(scripts) = &machine.scripts {
            let mut i: usize = 0;
            while i < scripts.len()
                invariant
                    machine.scripts == Some(*scripts),
                    i <= scripts@.len(),
                    locations@.len() == i,
                    forall|j: int|
                        #![trigger locations@[j]]
                        0 <= j < i && locations@[j].absolute ==> locations@[j].path@
                            == scripts@[j].path.value@,
                    forall|j: int|
                        #![trigger locations@[j]]
                        0 <= j < i && portable_path(parent@) && portable_path(scripts@[j].path.value@)
                            ==> joined(parent@, scripts@[j].path.value@, locations@[j].path@),
                    forall|j: int|
                        #![trigger locations@[j]]
                        0 <= j < i && names_file(locations@[j].path@) ==> text_of(
                            locations@[j].file_name,
                        ) == Some(last_segment(locations@[j].path@)),
                decreases scripts.len() - i,
            {
                let (absolute, path) = resolve(parent, scripts[i].path.value.as_str());
                let file_name = path_file_name(path.as_str());
                locations.push(ScriptLocation { path, absolute, file_name });
                i = i + 1;
            }
        }
        locations
    }

    /// The seed entries of the declared scripts, given what reading each one
    /// gave: the first that could not be read or decoded is reported.
    pub fn render_script_context(
        &self,
        machine: &Machine,
        locations: &Vec<ScriptLocation>,
        reads: &Vec<Result<Vec<u8>, String>>,
    ) -> (context: Result<Vec<SeedScript>, Seeders>)
        requires
            locations@.len() == declared_scripts(*machine).len(),
            reads@.len() == declared_scripts(*machine).len(),
        ensures
            match (context, first_unreadable(reads@)) {
                (Ok(entries), None) => entries@.len() == reads@.len() && forall|i: int|
                    #![trigger entries@[i]]
                    0 <= i < entries@.len() ==> entry_of_read(
                        entries@[i],
                        declared_scripts(*machine)[i],
                        locations@[i],
                        reads@[i],
                    ),
                (Err(e), Some(k)) => is_read_failure(e, locations@[k], reads@[k]),
                _ => false,
            },
    {
        let n = reads.len();
        let ghost steps = Seq::new(
            reads@.len(),
            |i: int| if read_text(reads@[i]) is None {
                Some(i)
            } else {
                None
            },
        );
        let mut entries: Vec<SeedScript> = Vec::new();
        let mut i: usize = 0;
        while i < n
            invariant
                n == reads@.len(),
                n == locations@.len(),
                n == declared_scripts(*machine).len(),
                steps == Seq::new(
                    reads@.len(),
                    |i: int| if read_text(reads@[i]) is None {
                        Some(i)
                    } else {
                        None
                    },
                ),
                i <= n,
                forall|j: int| 0 <= j < i ==> steps[j] is None,
                entries@.len() == i,
                forall|j: int|
                    #![trigger entries@[j]]
                    0 <= j < i ==> entry_of_read(
                        entries@[j],
                        declared_scripts(*machine)[j],
                        locations@[j],
                        reads@[j],
                    ),
            decreases n - i,
        {
            let location = &locations[i];
            match &reads[i] {
                Err(reason) => {
                    proof {
                        lemma_first_some_at(steps, i as int);
                    }
                    return Err(
                        Seeders::ScriptReadFailed {
                            path: owned(location.path.as_str()),
                            reason: owned(reason.as_str()),
                        },
                    );
                },
                Ok(bytes) => {
                    match self.read_script(location.path.as_str(), bytes.as_slice()) {
                        Err(e) => {
                            proof {
                                lemma_first_some_at(steps, i as int);
                            }
                            return Err(e);
                        },
                        Ok(content) => {
                            let script = match &machine.scripts {
                                Some(scripts) => &scripts[i],
                                None => {
                                    assert(false);
                                    return Err(
                                        Seeders::ScriptReadFailed {
                                            path: owned(location.path.as_str()),
                                            reason: String::new(),
                                        },
                                    );
                                },
                            };
                            let timeout_seconds = match &script.timeout_seconds {
                                Some(t) => t.value,
                                None => DEFAULT_SCRIPT_TIMEOUT_SECONDS,
                            };
                            let on_failure = match &script.on_failure {
                                Some(policy) => owned(policy.value.as_str()),
                                None => owned("warn"),
                            };
                            let mut path = owned("scripts/");
                            match &location.file_name {
                                Some(name) => path.append(name.as_str()),
                                None => path.append("script"),
                            }
                            entries.push(SeedScript { path, timeout_seconds, on_failure, content });
                        },
                    }
                },
            }
            i = i + 1;
        }
        proof {
            lemma_first_some_none(steps);
        }
        Ok(entries)
    }

    /// The packages step of the user data, none without a package section;
    /// refused where the manager gives no install command.
    pub fn packages_context(&self, machine: &Machine) -> (context: Result<
        Option<PackagesContext>,
        Seeders,
    >)
        ensures
            packages_outcome(*machine, context),
    {
        let packages = match &machine.packages {
            None => {
                return Ok(None);
            },
            Some(packages) => packages,
        };
        let manager = packages.manager.value;
        let install = &packages.install.value;
        let mut names: Vec<&str> = Vec::new();
        let mut i: usize = 0;
        while i < install.len()
            invariant
                machine.packages == Some(*packages),
                *install == packages.install.value,
                i <= install@.len(),
                names@.len() == i,
                views(names@) == package_names(*machine).take(i as int),
            decreases install.len() - i,
        {
            let name = install[i].value.as_str();
            names.push(name);
            proof {
                assert(name@ == install@[i as int].value@);
                assert(views(names@)[i as int] == name@);
                assert(package_names(*machine)[i as int] == install@[i as int].value@);
                assert(views(names@) =~= package_names(*machine).take(i + 1));
            }
            i = i + 1;
        }
        proof {
            assert(package_names(*machine).take(install@.len() as int) =~= package_names(*machine));
        }
        let command = match manager.install_packages_command(names.as_slice()) {
            Some(command) => command,
            None => {
                return Err(
                    Seeders::PackageInstallCommandUnavailable { manager: owned(manager.as_str()) },
                );
            },
        };
        let setup = match manager.install_package_manager_command(&machine.operating_system) {
            Some(text) => Some(owned(text)),
            None => None,
        };
        Ok(Some(PackagesContext { setup, install: lines(command.as_str()) }))
    }

    /// The manifest of the scripts: empty when there are none, else the JSON
    /// list of each script's path, timeout and failure policy.
    pub fn render_script_manifest(&self, scripts: &Vec<SeedScript>) -> (manifest: String)
        ensures
            manifest@ == manifest_text(scripts@),
    {
        if scripts.len() == 0 {
            return String::new();
        }
        match json_document(&manifest_document(scripts)) {
            Some(json) => json,
            None => owned("{\"scripts\":[]}"),
        }
    }

    /// The files of the seed image (see `seed_file_list`).
    pub fn seed_files(
        &self,
        meta_data: String,
        configuration: String,
        user_data: String,
        manifest: String,
        scripts: &Vec<SeedScript>,
    ) -> (files: Vec<(String, String)>)
        ensures
            file_views(files@) == seed_file_list(
                meta_data@,
                configuration@,
                user_data@,
                manifest@,
                scripts@,
            ),
    {
        let ghost (meta_view, configuration_view, user_view, manifest_view) = (
            meta_data@,
            configuration@,
            user_data@,
            manifest@,
        );
        let has_manifest = manifest.unicode_len() > 0;
        let mut files: Vec<(String, String)> = Vec::new();
        files.push((owned("meta-data"), meta_data));
        files.push((owned("cloudbase-init.conf"), configuration));
        files.push((owned("user-data"), user_data));
        if has_manifest {
            files.push((owned("scripts.json"), manifest));
        }
        let ghost head = file_views(files@);
        proof {
            let documents = seq![
                ("meta-data"@, meta_view),
                ("cloudbase-init.conf"@, configuration_view),
                ("user-data"@, user_view),
            ];
            if has_manifest {
                assert(head =~= documents.push(("scripts.json"@, manifest_view)));
            } else {
                assert(head =~= documents);
            }
        }
        let mut i: usize = 0;
        while i < scripts.len()
            invariant
                i <= scripts@.len(),
                files@.len() == head.len() + i,
                file_views(files@) == head + scripts@.take(i as int).map_values(
                    |s: SeedScript| (s.path@, s.content@),
                ),
            decreases scripts.len() - i,
        {
            let entry = (owned(scripts[i].path.as_str()), owned(scripts[i].content.as_str()));
            let ghost before = file_views(files@);
            let ghost item = (scripts@[i as int].path@, scripts@[i as int].content@);
            files.push(entry);
            proof {
                assert(file_views(files@) =~= before.push(item));
                assert(scripts@.take(i + 1).map_values(|s: SeedScript| (s.path@, s.content@))
                    =~= scripts@.take(i as int).map_values(|s: SeedScript| (s.path@, s.content@)).push(
                    item,
                ));
                assert(file_views(files@) =~= head + scripts@.take(i + 1).map_values(
                    |s: SeedScript| (s.path@, s.content@),
                ));
            }
            i = i + 1;
        }
        proof {
            assert(scripts@.take(scripts@.len() as int) =~= scripts@);
        }
        files
    }

    /// Writes the files into an ISO 9660 volume named `cidata`, in a buffer
    /// of the size the writer estimates. A written image carries the ISO 9660
    /// signature; its other bytes depend on the time, and whether the writer
    /// succeeds is the writer's to decide, so of a failure only its kind is
    /// stated.
    pub fn build_iso_payload(&self, files: &Vec<(String, String)>) -> (payload: Result<
        Vec<u8>,
        Seeders,
    >)
        ensures
            payload matches Ok(image) ==> carries_iso9660_signature(image@),
            payload matches Err(e) ==> e is IsoCreationFailed,
    {
        let options = iso_options(SEED_VOLUME_NAME, ISO_SECTOR_SIZE);
        let input = iso_input(files);
        let size = iso_minimum_bytes(&input, &options) as usize;
        let buffer: Vec<u8> = vec![0u8; size];
        match iso_write(buffer, input, options) {
            Ok(image) => Ok(image),
            Err(reason) => Err(Seeders::IsoCreationFailed { reason }),
        }
    }

    /// The seed image of a Windows guest from its rendered documents and
    /// scripts: the manifest is added, the image written and checked, and
    /// only an image of at most 64 MiB that carries the ISO 9660 signature is
    /// handed on.
    pub fn generate_iso(
        &self,
        meta_data: String,
        configuration: String,
        user_data: String,
        scripts: Vec<SeedScript>,
    ) -> (image: Result<Vec<u8>, Seeders>)
        ensures
            image matches Ok(bytes) ==> artifact_verdict(bytes@) is None,
            image matches Err(e) ==> e is IsoCreationFailed,
    {
        let manifest = self.render_script_manifest(&scripts);
        let files = self.seed_files(meta_data, configuration, user_data, manifest, &scripts);
        let payload = self.build_iso_payload(&files)?;
        let artifact = WindowsSeedArtifact::new(payload);
        artifact.validate()?;
        Ok(artifact.into_payload())
    }
}


// ---- reading back what the encoder writes ----

/// The UTF-16 code units of a text.
pub open spec fn utf16_sequence(text: Seq<char>) -> Seq<u16>
    decreases text.len(),
{
    if text.len() == 0 {
        Seq::empty()
    } else {
        utf16_sequence(text.drop_last()) + utf16_units(text.last())
    }
}

/// The text of units read after `text`, where they decode.
pub open spec fn text_before(text: Seq<char>, decoded: Option<Seq<char>>) -> Option<Seq<char>> {
    match decoded {
        Some(d) => Some(text + d),
        None => None,
    }
}

proof fn lemma_le_units_append(a: Seq<u8>, b: Seq<u8>)
    requires
        a.len() % 2 == 0,
    ensures
        le_units(a + b) == le_units(a) + le_units(b),
{
    assert(le_units(a + b) =~= le_units(a) + le_units(b)) by {
        assert forall|i: int| 0 <= i < le_units(a + b).len() implies #[trigger] le_units(a + b)[i] == (
        le_units(a) + le_units(b))[i] by {
            if i < a.len() / 2 {
                assert((a + b)[2 * i] == a[2 * i]);
                assert((a + b)[2 * i + 1] == a[2 * i + 1]);
            } else {
                let j = i - a.len() / 2;
                assert(2 * i == a.len() + 2 * j);
                assert((a + b)[2 * i] == b[2 * j]);
                assert((a + b)[2 * i + 1] == b[2 * j + 1]);
            }
        }
    }
}

proof fn lemma_le_units_of_unit(unit: u16)
    ensures
        le_units(le_bytes(unit)) == seq![unit],
{
    let u = unit as int;
    assert(u == (u % 256) + 256 * (u / 256)) by (nonlinear_arith);
    assert(le_units(le_bytes(unit)) =~= seq![unit]);
}

proof fn lemma_units_of_encoding(text: Seq<char>)
    ensures
        utf16le(text).len() % 2 == 0,
        le_units(utf16le(text)) == utf16_sequence(text),
    decreases text.len(),
{
    if text.len() > 0 {
        let init = text.drop_last();
        let units = utf16_units(text.last());
        lemma_units_of_encoding(init);
        lemma_le_units_of_unit(units[0]);
        if units.len() == 1 {
            lemma_le_units_append(utf16le(init), le_bytes(units[0]));
            assert(units =~= seq![units[0]]);
        } else {
            lemma_le_units_of_unit(units[1]);
            lemma_le_units_append(le_bytes(units[0]), le_bytes(units[1]));
            lemma_le_units_append(utf16le(init), le_bytes(units[0]) + le_bytes(units[1]));
            assert(units =~= seq![units[0]] + seq![units[1]]);
        }
    }
}

proof fn lemma_decode_char(c: char, rest: Seq<u16>)
    ensures
        utf16_decoded(utf16_units(c) + rest) == text_before(seq![c], utf16_decoded(rest)),
{
    let v = c as u32 as int;
    let units = utf16_units(c) + rest;
    if v < 0x10000 {
        assert(units.skip(1) =~= rest);
        assert(units[0] as int == v);
    } else {
        let w = v - 0x10000;
        assert(w / 1024 < 1024 && w % 1024 < 1024 && w == 1024 * (w / 1024) + w % 1024)
            by (nonlinear_arith)
            requires
                0 <= w <= 0xFFFFF,
        ;
        assert(units.skip(2) =~= rest);
        assert(units[0] as int == 0xD800 + w / 1024);
        assert(units[1] as int == 0xDC00 + w % 1024);
    }
}

proof fn lemma_decode_sequence(text: Seq<char>, rest: Seq<u16>)
    ensures
        utf16_decoded(utf16_sequence(text) + rest) == text_before(text, utf16_decoded(rest)),
    decreases text.len(),
{
    if text.len() == 0 {
        assert(utf16_sequence(text) + rest =~= rest);
        match utf16_decoded(rest) {
            Some(d) => assert(text + d =~= d),
            None => {},
        }
    } else {
        let init = text.drop_last();
        let c = text.last();
        assert(utf16_sequence(text) + rest =~= utf16_sequence(init) + (utf16_units(c) + rest));
        lemma_decode_sequence(init, utf16_units(c) + rest);
        lemma_decode_char(c, rest);
        match utf16_decoded(rest) {
            Some(d) => assert(init + (seq![c] + d) =~= text + d),
            None => {},
        }
    }
}

/// A script saved as UTF-16LE with its byte-order mark, as the script
/// encoder writes it, reads back as the text it was made from.
pub proof fn lemma_utf16_script_round_trip(text: Seq<char>)
    ensures
        script_text(utf16le_mark() + utf16le(text)) == Some(text),
{
    let bytes = utf16le_mark() + utf16le(text);
    lemma_units_of_encoding(text);
    assert(bytes.take(2) =~= utf16le_mark());
    assert(bytes.skip(2) =~= utf16le(text));
    lemma_decode_sequence(text, Seq::empty());
    assert(utf16_sequence(text) + Seq::<u16>::empty() =~= utf16_sequence(text));
    assert(text + Seq::<char>::empty() =~= text);
}

} // verus!
