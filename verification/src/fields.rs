//! Wrapper types for the values that describe one directory entry.
//!
//! Each type tags a raw stat value with the field it belongs to, so that
//! one rendering pipeline can address every column by name while the
//! per-platform meaning of the value stays intact. The raw values are
//! obtained by a traversal collaborator; this layer stores them and adds
//! only trivial predicates and the construction-time policy noted on
//! each constructor.

use crate::sid::NamedSecurityInfo;
use vstd::prelude::*;

verus! {

/// The entry's base kind, as declared by the filesystem.
///
/// The declaration order of the variants is the order used when sorting
/// entries by type; `rank` makes that order available to contracts.
#[derive(PartialEq, Eq, PartialOrd, Ord, Copy, Clone, Debug)]
pub enum Type {
    Directory,
    File,
    Link,
    Pipe,
    Socket,
    CharDevice,
    BlockDevice,
    Special,
}

impl Type {
    /// Position of this variant in the declaration order.
    pub open spec fn rank(self) -> int {
        match self {
            Type::Directory => 0,
            Type::File => 1,
            Type::Link => 2,
            Type::Pipe => 3,
            Type::Socket => 4,
            Type::CharDevice => 5,
            Type::BlockDevice => 6,
            Type::Special => 7,
        }
    }

    /// The sort key for ordering entries by type.
    pub fn sort_rank(self) -> (r: u8)
        ensures
            r as int == self.rank(),
    {
        match self {
            Type::Directory => 0,
            Type::File => 1,
            Type::Link => 2,
            Type::Pipe => 3,
            Type::Socket => 4,
            Type::CharDevice => 5,
            Type::BlockDevice => 6,
            Type::Special => 7,
        }
    }

    /// Whether the entry is a plain regular file.
    pub fn is_regular_file(self) -> (r: bool)
        ensures
            r == (self is File),
    {
        matches!(self, Type::File)
    }
}

/// The ranks order the kinds totally and consistently with the
/// declaration order, and distinct kinds never share a rank, so sorting
/// entries by `sort_rank` puts them into one stable order by kind.
pub proof fn lemma_type_order_total(a: Type, b: Type, c: Type)
    ensures
        a.rank() <= b.rank() || b.rank() <= a.rank(),
        (a.rank() <= b.rank() && b.rank() <= a.rank()) ==> a == b,
        (a.rank() <= b.rank() && b.rank() <= c.rank()) ==> a.rank() <= c.rank(),
{
}

/// An entry is exactly one of the eight kinds: the variant predicates
/// are exhaustive, and each one holds exactly when the rank — a single
/// value — is its own, so no two of them hold at once.
pub proof fn lemma_type_one_variant(t: Type)
    ensures
        (t is Directory) || (t is File) || (t is Link) || (t is Pipe) || (t is Socket)
            || (t is CharDevice) || (t is BlockDevice) || (t is Special),
        (t is Directory) <==> t.rank() == 0,
        (t is File) <==> t.rank() == 1,
        (t is Link) <==> t.rank() == 2,
        (t is Pipe) <==> t.rank() == 3,
        (t is Socket) <==> t.rank() == 4,
        (t is CharDevice) <==> t.rank() == 5,
        (t is BlockDevice) <==> t.rank() == 6,
        (t is Special) <==> t.rank() == 7,
{
}

/// The entry's Unix permission bitfield, with one entry per bit.
/// Meaningful only where the platform has these bits.
#[derive(PartialEq, Eq, Copy, Clone, Debug)]
pub struct Permissions {
    pub user_read: bool,
    pub user_write: bool,
    pub user_execute: bool,
    pub group_read: bool,
    pub group_write: bool,
    pub group_execute: bool,
    pub other_read: bool,
    pub other_write: bool,
    pub other_execute: bool,
    pub sticky: bool,
    pub setgid: bool,
    pub setuid: bool,
}

/// The entry's file-attribute flags, meaningful only on Windows.
#[derive(PartialEq, Eq, Copy, Clone, Debug)]
pub struct Attributes {
    pub archive: bool,
    pub directory: bool,
    pub readonly: bool,
    pub hidden: bool,
    pub system: bool,
    pub reparse_point: bool,
}

/// The permission-like payload an entry carries: exactly one of the two
/// platform shapes, chosen once for the platform the listing runs on.
#[derive(PartialEq, Eq, Copy, Clone, Debug)]
pub enum PlatformPermissions {
    Unix(Permissions),
    Windows(Attributes),
}

/// The pieces of information displayed as one fused column in the
/// details view: the entry kind, its permissions or attributes, and
/// whether it carries extended attributes.
#[derive(PartialEq, Eq, Copy, Clone, Debug)]
pub struct PermissionsPlus {
    pub file_type: Type,
    pub permissions: PlatformPermissions,
    pub xattrs: bool,
}

/// The permissions restated for octal rendering: a derived view with no
/// state of its own.
#[derive(PartialEq, Eq, Copy, Clone, Debug)]
pub struct OctalPermissions {
    pub permissions: Permissions,
}

/// An entry's number of hard links, with a flag set at construction for
/// the rare case worth highlighting: a regular file that appears in
/// more than one directory.
#[derive(PartialEq, Eq, Copy, Clone, Debug)]
pub struct Links {
    /// The actual link count.
    pub count: u64,
    /// Whether this is a regular file with more than one hard link.
    pub multiple: bool,
}

impl Links {
    /// Build the link-count field. `multiple` is computed here, once,
    /// and holds exactly for a regular file whose count exceeds one;
    /// renderers reuse the stored flag instead of recomputing it.
    pub fn new(file_type: Type, count: u64) -> (l: Links)
        ensures
            l.count == count,
            l.multiple == ((file_type is File) && count > 1),
    {
        Links { count, multiple: file_type.is_regular_file() && count > 1 }
    }
}

/// An entry's inode number.
#[derive(PartialEq, Eq, Copy, Clone, Debug)]
pub struct Inode(pub u64);

/// The number of blocks an entry takes up on the filesystem, if its
/// kind meaningfully reports any.
#[derive(PartialEq, Eq, Copy, Clone, Debug)]
pub enum Blocks {
    /// The entry has the given number of blocks.
    Counted(u64),
    /// The entry's kind does not usefully report blocks.
    Absent,
}

impl Blocks {
    /// Choose the block field for an entry. Only regular files and
    /// links report their count; every other kind's count is discarded
    /// by policy, whatever the filesystem said.
    pub fn from_stat(file_type: Type, count: u64) -> (b: Blocks)
        ensures
            ((file_type is File) || (file_type is Link)) ==> b == Blocks::Counted(count),
            !((file_type is File) || (file_type is Link)) ==> b == Blocks::Absent,
    {
        match file_type {
            Type::File => Blocks::Counted(count),
            Type::Link => Blocks::Counted(count),
            _ => Blocks::Absent,
        }
    }
}

/// The major and minor device numbers displayed for device files.
#[derive(PartialEq, Eq, Copy, Clone, Debug)]
pub struct DeviceIDs {
    pub major: u8,
    pub minor: u8,
}

/// An entry's size in bytes, or the device identity shown in its place.
#[derive(PartialEq, Eq, Copy, Clone, Debug)]
pub enum Size {
    /// The entry has a defined byte size.
    Bytes(u64),
    /// The entry has no size worth showing. Directories land here by
    /// policy: the filesystem reports a size for them, but it says
    /// nothing useful, so a dash is rendered instead.
    Absent,
    /// The entry is a block or character device: its major and minor
    /// device numbers are shown where a size would be.
    DeviceIDs(DeviceIDs),
}

impl Size {
    /// Choose the size field for an entry. Devices show their device
    /// numbers and never a byte count; directories show nothing by
    /// policy; every other kind shows its byte size.
    pub fn from_stat(file_type: Type, bytes: u64, ids: DeviceIDs) -> (s: Size)
        ensures
            ((file_type is CharDevice) || (file_type is BlockDevice)) ==> s == Size::DeviceIDs(
                ids,
            ),
            (file_type is Directory) ==> s == Size::Absent,
            !((file_type is CharDevice) || (file_type is BlockDevice) || (
            file_type is Directory)) ==> s == Size::Bytes(bytes),
    {
        match file_type {
            Type::CharDevice => Size::DeviceIDs(ids),
            Type::BlockDevice => Size::DeviceIDs(ids),
            Type::Directory => Size::Absent,
            _ => Size::Bytes(bytes),
        }
    }
}

/// One of an entry's timestamps (created, accessed, or modified),
/// ordered by seconds and then nanoseconds. The nanoseconds are stored
/// as given and not normalized against the seconds.
#[derive(PartialEq, Eq, PartialOrd, Ord, Copy, Clone, Debug)]
pub struct Time {
    pub seconds: i64,
    pub nanoseconds: i64,
}

/// An entry's status on one side of a version-control index. Whether
/// the entry is inside a repository at all is the repository
/// collaborator's concern, not a variant here.
#[derive(PartialEq, Eq, Copy, Clone, Debug)]
pub enum GitStatus {
    /// Unchanged since the last commit.
    NotModified,
    /// Absent from the last commit and not ignored.
    New,
    /// Modified since the last commit.
    Modified,
    /// Deleted.
    Deleted,
    /// Renamed since the last commit.
    Renamed,
    /// Its kind (such as the permission bits) changed.
    TypeChange,
    /// Ignored by the repository's ignore rules.
    Ignored,
    /// Updated but unmerged.
    Conflicted,
}

/// An entry's complete version-control status: one side for the staging
/// area and one for the working tree, since an entry can differ in
/// both at once. A snapshot for exactly one path.
#[derive(PartialEq, Eq, Copy, Clone, Debug)]
pub struct Git {
    pub staged: GitStatus,
    pub unstaged: GitStatus,
}

impl Default for Git {
    /// The status of an entry with nothing done to it: not modified on
    /// either side.
    fn default() -> (g: Git)
        ensures
            g.staged == GitStatus::NotModified,
            g.unstaged == GitStatus::NotModified,
    {
        Git { staged: GitStatus::NotModified, unstaged: GitStatus::NotModified }
    }
}

/// The identity of the user that owns an entry: a numeric id where the
/// platform has one, or the owned security context the name is resolved
/// through where it does not.
pub enum User {
    Id(u32),
    Security(NamedSecurityInfo),
}

/// The identity of the group an entry belongs to; resolved the same way
/// as the owning user where the platform has no numeric ids.
pub enum Group {
    Id(u32),
    Security(NamedSecurityInfo),
}

} // verus!
