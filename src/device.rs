use vstd::prelude::*;
use vstd::string::{StrSliceExecFns, StringExecFns};
use vstd::utf8::{decode_utf8, valid_utf8};

use crate::error::Error;

verus! {

/// Whether a character may stand in an object path.
pub open spec fn object_path_char(c: char) -> bool {
    ('a' <= c && c <= 'z') || ('A' <= c && c <= 'Z') || ('0' <= c && c <= '9') || c == '_' || c
        == '/'
}

/// Whether a text is a D-Bus object path: not empty, starting with `/`, with
/// no `//`, no trailing `/` unless it is `/` itself, and only ASCII letters,
/// digits, `_` and `/`.
pub open spec fn valid_object_path(text: Seq<char>) -> bool {
    &&& text.len() > 0
    &&& text[0] == '/'
    &&& text.len() > 1 ==> text[text.len() - 1] != '/'
    &&& forall|i: int| 0 <= i < text.len() ==> object_path_char(#[trigger] text[i])
    &&& forall|i: int| 1 <= i < text.len() ==> !(#[trigger] text[i] == '/' && text[i - 1] == '/')
}

/// `text` with every match of `from` replaced by `to`, matches taken from
/// left to right without overlap; an empty `from` matches before every
/// character and at the end.
pub open spec fn replace_all(text: Seq<char>, from: Seq<char>, to: Seq<char>) -> Seq<char>
    decreases text.len(),
{
    if from.len() == 0 {
        if text.len() == 0 {
            to
        } else {
            to + seq![text[0]] + replace_all(text.skip(1), from, to)
        }
    } else if text.len() < from.len() {
        text
    } else if text.take(from.len() as int) == from {
        to + replace_all(text.skip(from.len() as int), from, to)
    } else {
        seq![text[0]] + replace_all(text.skip(1), from, to)
    }
}

/// What `std::path::Path::extension` yields for a path: the part of the file
/// name after its last dot, if any.
pub uninterp spec fn path_extension(path: Seq<char>) -> Option<Seq<char>>;

/// What joining `rest` to `base` gives on Unix: `rest` when it is absolute;
/// else `base` and `rest` with one `/` between them, none added where `base`
/// is empty or already ends with `/`.
pub open spec fn path_join(base: Seq<char>, rest: Seq<char>) -> Seq<char> {
    if rest.len() > 0 && rest[0] == '/' {
        rest
    } else if base.len() == 0 || base[base.len() - 1] == '/' {
        base + rest
    } else {
        base + "/"@ + rest
    }
}

/// Relies on `zvariant::ObjectPath::try_from(&str)`: whether the text is a
/// valid object path (its rules are those of `valid_object_path`).
#[verifier::external_body]
fn is_object_path(text: &str) -> (r: bool)
    ensures
        r == valid_object_path(text@),
{
    zvariant::ObjectPath::try_from(text).is_ok()
}

/// Relies on `str::replace`.
#[verifier::external_body]
fn replace_text(text: &str, from: &str, to: &str) -> (r: String)
    ensures
        r@ == replace_all(text@, from@, to@),
{
    text.replace(from, to)
}

/// Relies on `std::path::Path::extension`, read as text.
#[verifier::external_body]
fn extension_of(path: &str) -> (r: Option<String>)
    ensures
        r matches Some(e) ==> path_extension(path@) == Some(e@),
        r is None ==> path_extension(path@) is None,
{
    std::path::Path::new(path).extension().map(|e| e.to_string_lossy().into_owned())
}

/// Relies on `std::path::Path::join` on Unix, read as text.
#[verifier::external_body]
fn join_path(base: &str, rest: &str) -> (r: String)
    ensures
        r@ == path_join(base@, rest@),
{
    std::path::Path::new(base).join(rest).to_string_lossy().into_owned()
}

/// Relies on `String::from_utf8`: it accepts exactly valid UTF-8 and decodes it.
#[verifier::external_body]
fn decode_bytes(bytes: Vec<u8>) -> (r: Result<String, String>)
    ensures
        r is Ok <==> valid_utf8(bytes@),
        r matches Ok(s) ==> s@ == decode_utf8(bytes@),
{
    String::from_utf8(bytes).map_err(|e| e.to_string())
}

/// The object path prefix of block devices, replaced by `/dev` for display.
pub const BLOCK_DEVICES_PREFIX: &'static str = "/org/freedesktop/UDisks2/block_devices";

/// A filesystem that update bundles may be read from.
///
/// GPT partition types are GUIDs, MBR partition types are identifiers.
#[derive(Clone, Copy, Debug, PartialEq, Eq, Structural)]
#[non_exhaustive]
pub enum Filesystem {
    GptMicrosoftBasicData,
    GptLinuxFilesystemData,
    MbrFat16,
    MbrFat16Lba,
    MbrFat32,
    MbrFat32Lba,
    MbrNtfs,
    MbrLinuxFilesystem,
}

/// ASCII letters to lower case; every other character stays.
pub open spec fn ascii_lower(c: char) -> char {
    if 'A' <= c && c <= 'Z' {
        ((c as u8) + 32) as char
    } else {
        c
    }
}

/// Whether two texts are equal when ASCII case is ignored.
pub open spec fn eq_ignore_ascii_case(a: Seq<char>, b: Seq<char>) -> bool {
    a.len() == b.len() && forall|i: int| 0 <= i < a.len() ==> ascii_lower(#[trigger] a[i]) == ascii_lower(b[i])
}

/// The compatible filesystem a partition type names, ignoring ASCII case.
pub open spec fn filesystem_of(t: Seq<char>) -> Option<Filesystem> {
    if eq_ignore_ascii_case(t, "EBD0A0A2-B9E5-4433-87C0-68B6B72699C7"@) {
        Some(Filesystem::GptMicrosoftBasicData)
    } else if eq_ignore_ascii_case(t, "0FC63DAF-8483-4772-8E79-3D69D8477DE4"@) {
        Some(Filesystem::GptLinuxFilesystemData)
    } else if eq_ignore_ascii_case(t, "0X06"@) {
        Some(Filesystem::MbrFat16)
    } else if eq_ignore_ascii_case(t, "0X0E"@) {
        Some(Filesystem::MbrFat16Lba)
    } else if eq_ignore_ascii_case(t, "0X0B"@) {
        Some(Filesystem::MbrFat32)
    } else if eq_ignore_ascii_case(t, "0X0C"@) {
        Some(Filesystem::MbrFat32Lba)
    } else if eq_ignore_ascii_case(t, "0X17"@) {
        Some(Filesystem::MbrNtfs)
    } else if eq_ignore_ascii_case(t, "0X83"@) {
        Some(Filesystem::MbrLinuxFilesystem)
    } else {
        None
    }
}

fn lower_char(c: char) -> (r: char)
    ensures
        r == ascii_lower(c),
{
    if 'A' <= c && c <= 'Z' {
        ((c as u8) + 32) as char
    } else {
        c
    }
}

/// Whether two texts are equal.
pub fn same_exactly(a: &str, b: &str) -> (r: bool)
    ensures
        r == (a@ == b@),
{
    let n = a.unicode_len();
    if n != b.unicode_len() {
        return false;
    }
    let mut i: usize = 0;
    while i < n
        invariant
            n == a@.len(),
            n == b@.len(),
            i <= n,
            forall|j: int| 0 <= j < i ==> #[trigger] a@[j] == b@[j],
        decreases n - i,
    {
        if a.get_char(i) != b.get_char(i) {
            return false;
        }
        i = i + 1;
    }
    assert(a@ =~= b@);
    true
}

/// Compare two texts ignoring ASCII case.
pub fn same_ignoring_ascii_case(a: &str, b: &str) -> (r: bool)
    ensures
        r == eq_ignore_ascii_case(a@, b@),
{
    let n = a.unicode_len();
    if n != b.unicode_len() {
        return false;
    }
    let mut i: usize = 0;
    while i < n
        invariant
            n == a@.len(),
            n == b@.len(),
            i <= n,
            forall|j: int| 0 <= j < i ==> ascii_lower(#[trigger] a@[j]) == ascii_lower(b@[j]),
        decreases n - i,
    {
        if lower_char(a.get_char(i)) != lower_char(b.get_char(i)) {
            return false;
        }
        i = i + 1;
    }
    true
}

impl Filesystem {
    /// The compatible filesystem that a partition type names, if any.
    pub fn from_partition_type(t: &str) -> (r: Option<Filesystem>)
        ensures
            r == filesystem_of(t@),
    {
        if same_ignoring_ascii_case(t, "EBD0A0A2-B9E5-4433-87C0-68B6B72699C7") {
            Some(Filesystem::GptMicrosoftBasicData)
        } else if same_ignoring_ascii_case(t, "0FC63DAF-8483-4772-8E79-3D69D8477DE4") {
            Some(Filesystem::GptLinuxFilesystemData)
        } else if same_ignoring_ascii_case(t, "0X06") {
            Some(Filesystem::MbrFat16)
        } else if same_ignoring_ascii_case(t, "0X0E") {
            Some(Filesystem::MbrFat16Lba)
        } else if same_ignoring_ascii_case(t, "0X0B") {
            Some(Filesystem::MbrFat32)
        } else if same_ignoring_ascii_case(t, "0X0C") {
            Some(Filesystem::MbrFat32Lba)
        } else if same_ignoring_ascii_case(t, "0X17") {
            Some(Filesystem::MbrNtfs)
        } else if same_ignoring_ascii_case(t, "0X83") {
            Some(Filesystem::MbrLinuxFilesystem)
        } else {
            None
        }
    }
}

/// An answer of the block device manager while a device is mounted.
#[derive(Clone, Debug)]
pub enum MountAnswer {
    /// The block device's usage.
    Usage(String),
    /// The partition number.
    PartitionNumber(u32),
    /// The partition type.
    PartitionType(String),
    /// The existing mountpoints, each NUL-terminated.
    Mountpoints(Vec<Vec<u8>>),
    /// The mountpoint of a read-write mount that was requested.
    Mounted(String),
}

/// What to ask the block device manager next while a device is mounted.
#[derive(Clone, Debug)]
pub enum MountAction {
    AskUsage,
    AskPartitionNumber,
    AskPartitionType,
    AskMountpoints,
    /// Request a read-write mount.
    Mount,
    /// The device is mounted at this mountpoint.
    Done(String),
}

/// A directory entry handed in by the caller: its path and whether it is a
/// regular file.
#[derive(Clone, Debug)]
pub struct DirEntry {
    pub path: String,
    pub is_file: bool,
}

/// Whether a directory entry is a bundle: a regular file with the extension.
pub open spec fn is_bundle_entry(e: DirEntry, extension: Seq<char>) -> bool {
    e.is_file && path_extension(e.path@) == Some(extension)
}

/// The paths of the bundle entries, in order.
pub open spec fn bundle_entries(entries: Seq<DirEntry>, extension: Seq<char>) -> Seq<Seq<char>>
    decreases entries.len(),
{
    if entries.len() == 0 {
        Seq::empty()
    } else {
        let rest = bundle_entries(entries.drop_last(), extension);
        if is_bundle_entry(entries.last(), extension) {
            rest.push(entries.last().path@)
        } else {
            rest
        }
    }
}

/// What a device is, as seen by contracts.
pub struct DeviceView {
    pub objectpath: Seq<char>,
    pub mountpoint: Option<Seq<char>>,
    pub mounted_by_us: Option<bool>,
    pub bundles: Seq<Seq<char>>,
    pub override_bundles: Seq<Seq<char>>,
}

/// A block device: its object path, its mountpoint and whether this program
/// mounted it (each set at most once), and the bundle locations found on it.
#[derive(Clone, Debug)]
pub struct Device {
    objectpath: String,
    mountpoint: Option<String>,
    /// whether the mountpoint is to be unmounted again
    unmountable: Option<bool>,
    /// locations of potential bundles at the top level of the mountpoint
    bundles: Vec<String>,
    /// locations of potential bundles in the override location of the mountpoint
    override_bundles: Vec<String>,
}

/// The views of a sequence of strings.
pub open spec fn texts(v: Seq<String>) -> Seq<Seq<char>> {
    v.map_values(|s: String| s@)
}

impl View for Device {
    type V = DeviceView;

    closed spec fn view(&self) -> DeviceView {
        DeviceView {
            objectpath: self.objectpath@,
            mountpoint: match self.mountpoint {
                Some(m) => Some(m@),
                None => None,
            },
            mounted_by_us: self.unmountable,
            bundles: texts(self.bundles@),
            override_bundles: texts(self.override_bundles@),
        }
    }
}

/// The display path of a device: its object path with the block device
/// prefix replaced by `/dev`.
pub open spec fn device_path_of(objectpath: Seq<char>) -> Seq<char> {
    replace_all(objectpath, BLOCK_DEVICES_PREFIX@, "/dev"@)
}

fn copy_texts(v: &Vec<String>) -> (r: Vec<String>)
    ensures
        texts(r@) == texts(v@),
{
    let mut r: Vec<String> = Vec::new();
    let mut i: usize = 0;
    while i < v.len()
        invariant
            i <= v.len(),
            texts(r@) == texts(v@.take(i as int)),
        decreases v.len() - i,
    {
        r.push(v[i].clone());
        assert(texts(v@.take(i + 1)) =~= texts(v@.take(i as int)).push(v@[i as int]@));
        assert(texts(r@) =~= texts(v@.take(i as int)).push(v@[i as int]@));
        i = i + 1;
    }
    assert(v@.take(v.len() as int) =~= v@);
    r
}

impl Device {
    /// Create a device for an object path; the path must be a valid object path.
    pub fn new(objectpath: String) -> (r: Result<Device, Error>)
        ensures
            r is Ok <==> valid_object_path(objectpath@),
            r matches Ok(d) ==> d@.objectpath == objectpath@ && d@.mountpoint is None
                && d@.mounted_by_us is None && d@.bundles.len() == 0
                && d@.override_bundles.len() == 0,
            r matches Err(e) ==> e matches Error::InvalidDevicePath(p) && p@ == device_path_of(
                objectpath@,
            ),
    {
        if !is_object_path(objectpath.as_str()) {
            Err(
                Error::InvalidDevicePath(
                    replace_text(objectpath.as_str(), BLOCK_DEVICES_PREFIX, "/dev"),
                ),
            )
        } else {
            let d = Device {
                objectpath,
                mountpoint: None,
                unmountable: None,
                bundles: Vec::new(),
                override_bundles: Vec::new(),
            };
            assert(d@.bundles =~= Seq::empty());
            assert(d@.override_bundles =~= Seq::empty());
            Ok(d)
        }
    }

    /// Return whether the device is mounted.
    pub fn is_mounted(&self) -> (r: bool)
        ensures
            r == self@.mountpoint is Some,
    {
        self.mountpoint.is_some()
    }

    /// Return the object path.
    pub fn objectpath(&self) -> (r: &str)
        ensures
            r@ == self@.objectpath,
    {
        self.objectpath.as_str()
    }

    /// Return the mountpoint, if the device is mounted.
    pub fn mountpoint(&self) -> (r: Option<String>)
        ensures
            r matches Some(m) ==> self@.mountpoint == Some(m@),
            r is None ==> self@.mountpoint is None,
    {
        match &self.mountpoint {
            Some(m) => Some(m.clone()),
            None => None,
        }
    }

    /// Return whether this program mounted the device, once that is known.
    pub fn mounted_by_us(&self) -> (r: Option<bool>)
        ensures
            r == self@.mounted_by_us,
    {
        self.unmountable
    }

    /// Return the text that describes the device: its object path and where
    /// it is mounted.
    pub fn describe(&self) -> (r: String)
        ensures
            r@ == self@.objectpath + (match self@.mountpoint {
                Some(m) => " (mounted at "@ + m + ")"@,
                None => " (not mounted)"@,
            }),
    {
        match &self.mountpoint {
            Some(m) => self.objectpath.clone().concat(" (mounted at ").concat(m.as_str()).concat(")"),
            None => self.objectpath.clone().concat(" (not mounted)"),
        }
    }

    /// Return the device path: the object path with its prefix replaced by `/dev`.
    pub fn device_path(&self) -> (r: String)
        ensures
            r@ == device_path_of(self@.objectpath),
    {
        replace_text(self.objectpath.as_str(), BLOCK_DEVICES_PREFIX, "/dev")
    }

    /// Return the bundle locations found at the top level, if there are any.
    pub fn bundles(&self) -> (r: Option<Vec<String>>)
        ensures
            r is None <==> self@.bundles.len() == 0,
            r matches Some(v) ==> texts(v@) == self@.bundles,
    {
        if self.bundles.len() != 0 {
            Some(copy_texts(&self.bundles))
        } else {
            None
        }
    }

    /// Return the bundle locations found in the override location, if there are any.
    pub fn override_bundles(&self) -> (r: Option<Vec<String>>)
        ensures
            r is None <==> self@.override_bundles.len() == 0,
            r matches Some(v) ==> texts(v@) == self@.override_bundles,
    {
        if self.override_bundles.len() != 0 {
            Some(copy_texts(&self.override_bundles))
        } else {
            None
        }
    }

    /// Check the block device's usage: only a filesystem can be mounted.
    pub fn check_usage(&self, usage: &str) -> (r: Result<(), Error>)
        ensures
            r is Ok <==> usage@ == "filesystem"@,
            r matches Err(e) ==> e matches Error::IncompatibleBlockDevice(p) && p@
                == device_path_of(self@.objectpath),
    {
        if same_exactly(usage, "filesystem") {
            Ok(())
        } else {
            Err(Error::IncompatibleBlockDevice(self.device_path()))
        }
    }

    /// Check the partition number: 0 is a base device, which is not used.
    pub fn check_partition_number(&self, number: u32) -> (r: Result<(), Error>)
        ensures
            r is Ok <==> number != 0,
            r matches Err(e) ==> e matches Error::IsBaseDevice(p) && p@ == device_path_of(
                self@.objectpath,
            ),
    {
        if number == 0 {
            Err(Error::IsBaseDevice(self.device_path()))
        } else {
            Ok(())
        }
    }

    /// Check the partition type against the compatible filesystems.
    pub fn check_partition_type(&self, partition_type: &str) -> (r: Result<Filesystem, Error>)
        ensures
            r is Ok <==> filesystem_of(partition_type@) is Some,
            r matches Ok(f) ==> filesystem_of(partition_type@) == Some(f),
            r matches Err(e) ==> e matches Error::IncompatibleFilesystem(p) && p@
                == device_path_of(self@.objectpath),
    {
        match Filesystem::from_partition_type(partition_type) {
            Some(f) => Ok(f),
            None => Err(Error::IncompatibleFilesystem(self.device_path())),
        }
    }

    /// The mountpoint the filesystem is already mounted at, if any: the first
    /// reported entry without its terminating NUL byte.
    pub fn existing_mountpoint(mountpoints: &Vec<Vec<u8>>) -> (r: Result<Option<String>, Error>)
        requires
            mountpoints.len() > 0 ==> mountpoints[0].len() > 0,
        ensures
            mountpoints.len() == 0 ==> r matches Ok(None),
            mountpoints.len() > 0 ==> {
                let b = mountpoints@[0]@.take(mountpoints@[0]@.len() - 1);
                &&& r is Ok <==> valid_utf8(b)
                &&& r matches Ok(m) ==> m matches Some(s) && s@ == decode_utf8(b)
                &&& r matches Err(e) ==> e is String
            },
    {
        if mountpoints.len() == 0 {
            return Ok(None);
        }
        let first = &mountpoints[0];
        let n = first.len() - 1;
        let mut bytes: Vec<u8> = Vec::new();
        let mut i: usize = 0;
        while i < n
            invariant
                n == first@.len() - 1,
                i <= n,
                bytes@ == first@.take(i as int),
            decreases n - i,
        {
            bytes.push(first[i]);
            assert(first@.take(i + 1) =~= first@.take(i as int).push(first@[i as int]));
            i = i + 1;
        }
        match decode_bytes(bytes) {
            Ok(s) => Ok(Some(s)),
            Err(why) => Err(Error::String(why)),
        }
    }

    /// Record where the device is mounted and whether this program mounted
    /// it. Both are set once: a second attempt is an error and changes nothing.
    pub fn set_mountpoint(&mut self, mountpoint: String, mounted_by_us: bool) -> (r: Result<(), Error>)
        ensures
            r is Ok <==> (old(self)@.mountpoint is None && old(self)@.mounted_by_us is None),
            r is Ok ==> final(self)@ == (DeviceView {
                mountpoint: Some(mountpoint@),
                mounted_by_us: Some(mounted_by_us),
                ..old(self)@
            }),
            r is Err ==> final(self)@ == old(self)@,
            r matches Err(e) ==> (e matches Error::AlreadyMounted(p, m) && p@ == device_path_of(
                old(self)@.objectpath,
            ) && m@ == mountpoint@),
    {
        if self.mountpoint.is_some() || self.unmountable.is_some() {
            return Err(Error::AlreadyMounted(self.device_path(), mountpoint));
        }
        self.unmountable = Some(mounted_by_us);
        self.mountpoint = Some(mountpoint);
        Ok(())
    }

    /// Take the next answer of the block device manager while mounting the
    /// device, and say what to ask for next. The checks come in this order:
    /// usage, partition number, partition type; then the existing mountpoints
    /// are read. With none, a read-write mount is requested and the device is
    /// recorded as mounted by this program; otherwise the first existing
    /// mountpoint is reused and recorded as not mounted by this program.
    pub fn mount_progress(&mut self, answer: MountAnswer) -> (r: Result<MountAction, Error>)
        requires
            answer matches MountAnswer::Mountpoints(v) ==> (v.len() > 0 ==> v[0].len() > 0),
        ensures
            !(answer is Mountpoints && r matches Ok(MountAction::Done(_))) && !(answer is Mounted)
                ==> final(self)@ == old(self)@,
            answer matches MountAnswer::Usage(u) ==> (r is Ok <==> u@ == "filesystem"@) && (r is Ok
                ==> r == Ok::<MountAction, Error>(MountAction::AskPartitionNumber)) && (r is Err
                ==> r matches Err(Error::IncompatibleBlockDevice(_))),
            answer matches MountAnswer::PartitionNumber(n) ==> (r is Ok <==> n != 0) && (r is Ok
                ==> r == Ok::<MountAction, Error>(MountAction::AskPartitionType)) && (r is Err
                ==> r matches Err(Error::IsBaseDevice(_))),
            answer matches MountAnswer::PartitionType(t) ==> (r is Ok <==> filesystem_of(t@) is Some)
                && (r is Ok ==> r == Ok::<MountAction, Error>(MountAction::AskMountpoints)) && (r is Err
                ==> r matches Err(Error::IncompatibleFilesystem(_))),
            answer matches MountAnswer::Mountpoints(v) ==> (v.len() == 0 ==> r == Ok::<
                MountAction,
                Error,
            >(MountAction::Mount)),
            answer matches MountAnswer::Mountpoints(v) ==> (v.len() > 0 ==> {
                let b = v@[0]@.take(v@[0]@.len() - 1);
                &&& !valid_utf8(b) ==> (r matches Err(Error::String(_)))
                &&& valid_utf8(b) && old(self)@.mountpoint is None && old(self)@.mounted_by_us is None
                    ==> (r matches Ok(MountAction::Done(m)) && m@ == decode_utf8(b) && final(self)@
                    == (DeviceView {
                    mountpoint: Some(decode_utf8(b)),
                    mounted_by_us: Some(false),
                    ..old(self)@
                }))
                &&& valid_utf8(b) && !(old(self)@.mountpoint is None && old(self)@.mounted_by_us is None)
                    ==> (r matches Err(Error::AlreadyMounted(_, _)) && final(self)@ == old(self)@)
            }),
            answer matches MountAnswer::Mounted(m) ==> (old(self)@.mountpoint is None
                && old(self)@.mounted_by_us is None ==> (r matches Ok(MountAction::Done(d)) && d@
                == m@ && final(self)@ == (DeviceView {
                mountpoint: Some(m@),
                mounted_by_us: Some(true),
                ..old(self)@
            }))),
            answer matches MountAnswer::Mounted(m) ==> (!(old(self)@.mountpoint is None
                && old(self)@.mounted_by_us is None) ==> (r matches Err(Error::AlreadyMounted(_, _))
                && final(self)@ == old(self)@)),
    {
        match answer {
            MountAnswer::Usage(u) => {
                self.check_usage(u.as_str())?;
                Ok(MountAction::AskPartitionNumber)
            },
            MountAnswer::PartitionNumber(n) => {
                self.check_partition_number(n)?;
                Ok(MountAction::AskPartitionType)
            },
            MountAnswer::PartitionType(t) => {
                self.check_partition_type(t.as_str())?;
                Ok(MountAction::AskMountpoints)
            },
            MountAnswer::Mountpoints(v) => match Self::existing_mountpoint(&v)? {
                None => Ok(MountAction::Mount),
                Some(m) => {
                    let shown = m.clone();
                    self.set_mountpoint(m, false)?;
                    Ok(MountAction::Done(shown))
                },
            },
            MountAnswer::Mounted(m) => {
                let shown = m.clone();
                self.set_mountpoint(m, true)?;
                Ok(MountAction::Done(shown))
            },
        }
    }

    /// Whether teardown unmounts this device: it is mounted and was not found
    /// mounted by someone else.
    pub fn unmount_needed(&self) -> (r: bool)
        ensures
            r <==> (self@.mountpoint is Some && self@.mounted_by_us != Some(false)),
    {
        self.mountpoint.is_some() && !matches!(self.unmountable, Some(false))
    }

    /// Record the outcome of a requested unmount: on success the mountpoint
    /// is cleared, on failure the error names it (or "unknown").
    pub fn unmount_finished(&mut self, success: bool) -> (r: Result<(), Error>)
        ensures
            r is Ok <==> success,
            success ==> final(self)@ == (DeviceView { mountpoint: None, ..old(self)@ }),
            !success ==> final(self)@ == old(self)@,
            r matches Err(e) ==> e matches Error::UnmountFailed(m) && (match old(self)@.mountpoint {
                Some(mp) => m@ == mp,
                None => m@ == "unknown"@,
            }),
    {
        if success {
            self.mountpoint = None;
            Ok(())
        } else {
            let m = match &self.mountpoint {
                Some(mp) => mp.clone(),
                None => String::from_str("unknown"),
            };
            Err(Error::UnmountFailed(m))
        }
    }
    /// Append to `found` the paths of the bundle entries among `entries`.
    fn collect_bundles(found: &mut Vec<String>, entries: &Vec<DirEntry>, extension: &str)
        ensures
            texts(final(found)@) == texts(old(found)@) + bundle_entries(entries@, extension@),
    {
        let ghost start = texts(found@);
        let mut i: usize = 0;
        while i < entries.len()
            invariant
                i <= entries.len(),
                texts(found@) == start + bundle_entries(entries@.take(i as int), extension@),
            decreases entries.len() - i,
        {
            let e = &entries[i];
            let ext = extension_of(e.path.as_str());
            let matching = match &ext {
                Some(x) => same_exactly(x.as_str(), extension),
                None => false,
            };
            assert(entries@.take(i + 1).drop_last() =~= entries@.take(i as int));
            assert(entries@.take(i + 1).last() == entries@[i as int]);
            if e.is_file && matching {
                let ghost before = found@;
                found.push(e.path.clone());
                assert(texts(found@) =~= texts(before).push(e.path@));
                assert(texts(found@) =~= start + bundle_entries(entries@.take(i + 1), extension@));
            }
            i = i + 1;
        }
        assert(entries@.take(entries.len() as int) =~= entries@);
    }

    /// Record the bundle files found at the top level of the mountpoint:
    /// the regular files among `entries` whose extension is `extension`.
    pub fn find_bundles(&mut self, entries: &Vec<DirEntry>, extension: &str) -> (r: Result<(), Error>)
        ensures
            r is Ok <==> old(self)@.mountpoint is Some,
            r is Ok ==> final(self)@ == (DeviceView {
                bundles: old(self)@.bundles + bundle_entries(entries@, extension@),
                ..old(self)@
            }),
            r is Err ==> final(self)@ == old(self)@,
            r matches Err(e) ==> (e matches Error::DeviceNotMounted(p) && p@ == old(self)@.objectpath),
    {
        if self.mountpoint.is_none() {
            return Err(Error::DeviceNotMounted(self.objectpath.clone()));
        }
        Self::collect_bundles(&mut self.bundles, entries, extension);
        Ok(())
    }

    /// The override location below the mountpoint.
    pub fn override_location(&self, override_dir: &str) -> (r: Result<String, Error>)
        ensures
            r is Ok <==> self@.mountpoint is Some,
            r matches Ok(p) ==> p@ == path_join(self@.mountpoint->0, override_dir@),
            r matches Err(e) ==> (e matches Error::DeviceNotMounted(p) && p@ == self@.objectpath),
    {
        match &self.mountpoint {
            Some(m) => Ok(join_path(m.as_str(), override_dir)),
            None => Err(Error::DeviceNotMounted(self.objectpath.clone())),
        }
    }

    /// Record the bundle files found in the override location: the regular
    /// files among `entries` whose extension is `extension`.
    pub fn find_override_bundles(&mut self, entries: &Vec<DirEntry>, extension: &str) -> (r: Result<
        (),
        Error,
    >)
        ensures
            r is Ok <==> old(self)@.mountpoint is Some,
            r is Ok ==> final(self)@ == (DeviceView {
                override_bundles: old(self)@.override_bundles + bundle_entries(entries@, extension@),
                ..old(self)@
            }),
            r is Err ==> final(self)@ == old(self)@,
            r matches Err(e) ==> (e matches Error::DeviceNotMounted(p) && p@ == old(self)@.objectpath),
    {
        if self.mountpoint.is_none() {
            return Err(Error::DeviceNotMounted(self.objectpath.clone()));
        }
        Self::collect_bundles(&mut self.override_bundles, entries, extension);
        Ok(())
    }
}

/// Whether `text` matches the regular expression `pattern`, as the regex
/// crate decides; `None` when the pattern is not a valid regular expression.
pub uninterp spec fn regex_match(pattern: Seq<char>, text: Seq<char>) -> Option<bool>;

/// Relies on `regex::Regex::new` (whether the pattern compiles, and why not)
/// and `regex::Regex::is_match` (whether the text matches).
#[verifier::external_body]
fn matches_pattern(pattern: &str, text: &str) -> (r: Result<bool, String>)
    ensures
        r is Ok <==> regex_match(pattern@, text@) is Some,
        r matches Ok(b) ==> regex_match(pattern@, text@) == Some(b),
{
    regex::Regex::new(pattern).map(|re| re.is_match(text)).map_err(|e| e.to_string())
}

/// The object paths among `paths` that match `pattern` and are valid object paths.
pub open spec fn selected_paths(paths: Seq<String>, pattern: Seq<char>) -> Seq<Seq<char>>
    decreases paths.len(),
{
    if paths.len() == 0 {
        Seq::empty()
    } else {
        let rest = selected_paths(paths.drop_last(), pattern);
        let p = paths.last()@;
        if regex_match(pattern, p) == Some(true) && valid_object_path(p) {
            rest.push(p)
        } else {
            rest
        }
    }
}

/// Information on the block device manager.
#[derive(Clone, Debug)]
pub struct UdisksInfo {
    version: String,
}

impl UdisksInfo {
    /// Create the information from the version the manager reports.
    pub fn new(version: String) -> (r: UdisksInfo)
        ensures
            r.version_view() == version@,
    {
        UdisksInfo { version }
    }

    /// The version the manager reports.
    pub closed spec fn version_view(&self) -> Seq<char> {
        self.version@
    }

    /// Return the version.
    pub fn version(&self) -> (r: &str)
        ensures
            r@ == self.version_view(),
    {
        self.version.as_str()
    }

    /// Return the text that describes the manager.
    pub fn describe(&self) -> (r: String)
        ensures
            r@ == "Udisks2 ("@ + self.version_view() + ")"@,
    {
        String::from_str("Udisks2 (").concat(self.version.as_str()).concat(")")
    }

    /// Make devices of the block device object paths that match
    /// `device_regex`, in order. An invalid regular expression is a
    /// configuration error; paths that are no valid object paths are left out.
    pub fn get_block_devices(paths: &Vec<String>, device_regex: &str) -> (r: Result<Vec<Device>, Error>)
        ensures
            r is Ok <==> forall|k: int| 0 <= k < paths.len() ==> (#[trigger] regex_match(device_regex@, paths@[k]@)) is Some,
            r matches Err(e) ==> e is Config,
            r matches Ok(ds) ==> ds@.map_values(|d: Device| d@.objectpath) == selected_paths(paths@, device_regex@),
            r matches Ok(ds) ==> forall|k: int| 0 <= k < ds.len() ==> {
                let d = (#[trigger] ds@[k])@;
                &&& d.mountpoint is None
                &&& d.mounted_by_us is None
                &&& d.bundles.len() == 0
                &&& d.override_bundles.len() == 0
            },
    {
        let mut devices: Vec<Device> = Vec::new();
        let mut i: usize = 0;
        while i < paths.len()
            invariant
                i <= paths.len(),
                forall|k: int| 0 <= k < i ==> (#[trigger] regex_match(device_regex@, paths@[k]@)) is Some,
                devices@.map_values(|d: Device| d@.objectpath) == selected_paths(paths@.take(i as int), device_regex@),
                forall|k: int| 0 <= k < devices.len() ==> {
                    let d = (#[trigger] devices@[k])@;
                    &&& d.mountpoint is None
                    &&& d.mounted_by_us is None
                    &&& d.bundles.len() == 0
                    &&& d.override_bundles.len() == 0
                },
            decreases paths.len() - i,
        {
            let p = &paths[i];
            assert(paths@.take(i + 1).drop_last() =~= paths@.take(i as int));
            match matches_pattern(device_regex, p.as_str()) {
                Ok(true) => {
                    match Device::new(p.clone()) {
                        Ok(d) => {
                            devices.push(d);
                        },
                        Err(_) => {},
                    }
                },
                Ok(false) => {},
                Err(why) => {
                    return Err(Error::Config(why));
                },
            }
            assert(devices@.map_values(|d: Device| d@.objectpath) =~= selected_paths(paths@.take(i + 1), device_regex@));
            i = i + 1;
        }
        assert(paths@.take(paths.len() as int) =~= paths@);
        Ok(devices)
    }
}

} // verus!
