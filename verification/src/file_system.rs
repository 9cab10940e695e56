//! The filesystem item model: an immutable snapshot of one directory
//! entry at listing time.
//!
//! Paths are carried as plain strings (the path as the listing produced
//! it) and timestamps as seconds since the Unix epoch; rendering them in
//! a local calendar is the embedding program's concern.

use chrono::TimeZone;
use vstd::prelude::*;
use vstd::string::StrSliceExecFns;

verus! {

/// Timestamp used for the unknown variant, whose metadata was never read.
pub const UNKNOWN_TIMESTAMP: i64 = 315532801;

/// A directory entry.
#[derive(Debug)]
pub struct DirItem {
    pub name: String,
    pub path: String,
    pub last_modification: i64,
    pub icon: String,
    pub empty: bool,
    pub created: i64,
    pub modified: i64,
    pub accessed: i64,
    pub size: u64,
    pub mode: u32,
    pub inode: u64,
    pub nlink: u64,
    pub username: String,
    pub groupname: String,
    pub blocksize: u64,
    pub blocks: u64,
}

/// A regular-file entry.
#[derive(Debug)]
pub struct FileItem {
    pub name: String,
    pub path: String,
    pub last_modification: i64,
    pub icon: String,
    pub created: i64,
    pub modified: i64,
    pub accessed: i64,
    pub size: u64,
    pub mode: u32,
    pub inode: u64,
    pub nlink: u64,
    pub username: String,
    pub groupname: String,
    pub blocksize: u64,
    pub blocks: u64,
}

/// A symbolic-link entry, with the target it resolved to at listing time.
#[derive(Debug)]
pub struct SymlinkItem {
    pub name: String,
    pub path: String,
    pub target: String,
    pub last_modification: i64,
    pub icon: String,
    pub created: i64,
    pub modified: i64,
    pub accessed: i64,
    pub size: u64,
    pub mode: u32,
    pub inode: u64,
    pub nlink: u64,
    pub username: String,
    pub groupname: String,
    pub blocksize: u64,
    pub blocks: u64,
}

/// One entry of a directory listing.
#[derive(Debug)]
pub enum FileSystemItem {
    Directory(DirItem),
    File(FileItem),
    Symlink(SymlinkItem),
    Unknown,
}

/// Name of a hidden entry: the first character is a dot.
pub open spec fn spec_starts_with_dot(name: Seq<char>) -> bool {
    name.len() > 0 && name[0] == '.'
}

/// Whether `name` starts with a dot.
pub fn starts_with_dot(name: &String) -> (r: bool)
    ensures
        r == spec_starts_with_dot(name@),
{
    let len = name.as_str().unicode_len();
    len > 0 && name.as_str().get_char(0) == '.'
}

impl Clone for DirItem {
    fn clone(&self) -> (r: Self)
        ensures
            r == *self,
    {
        DirItem {
            name: self.name.clone(),
            path: self.path.clone(),
            last_modification: self.last_modification,
            icon: self.icon.clone(),
            empty: self.empty,
            created: self.created,
            modified: self.modified,
            accessed: self.accessed,
            size: self.size,
            mode: self.mode,
            inode: self.inode,
            nlink: self.nlink,
            username: self.username.clone(),
            groupname: self.groupname.clone(),
            blocksize: self.blocksize,
            blocks: self.blocks,
        }
    }
}

impl DirItem {
    #[allow(clippy::too_many_arguments)]
    pub fn new(
        name: String,
        path: String,
        last_modification: i64,
        icon: String,
        is_empty: bool,
        created: i64,
        modified: i64,
        accessed: i64,
        size: u64,
        mode: u32,
        inode: u64,
        nlink: u64,
        username: String,
        groupname: String,
        blocksize: u64,
        blocks: u64,
    ) -> (r: Self)
        ensures
            r.name == name,
            r.path == path,
            r.last_modification == last_modification,
            r.icon == icon,
            r.empty == is_empty,
            r.created == created,
            r.modified == modified,
            r.accessed == accessed,
            r.size == size,
            r.mode == mode,
            r.inode == inode,
            r.nlink == nlink,
            r.username == username,
            r.groupname == groupname,
            r.blocksize == blocksize,
            r.blocks == blocks,
    {
        DirItem {
            name,
            path,
            last_modification,
            icon,
            empty: is_empty,
            created,
            modified,
            accessed,
            size,
            mode,
            inode,
            nlink,
            username,
            groupname,
            blocksize,
            blocks,
        }
    }

    pub fn get_name(&self) -> (r: String)
        ensures
            r == self.name,
    {
        self.name.clone()
    }

    pub fn get_path(&self) -> (r: String)
        ensures
            r == self.path,
    {
        self.path.clone()
    }

    /// Whether the entry's name marks it as hidden (a leading dot).
    pub fn is_visible(&self) -> (r: bool)
        ensures
            r == spec_starts_with_dot(self.name@),
    {
        starts_with_dot(&self.name)
    }

    /// The emptiness flag captured at listing time.
    pub fn is_empty(&self) -> (r: bool)
        ensures
            r == self.empty,
    {
        self.empty
    }
}

impl Clone for FileItem {
    fn clone(&self) -> (r: Self)
        ensures
            r == *self,
    {
        FileItem {
            name: self.name.clone(),
            path: self.path.clone(),
            last_modification: self.last_modification,
            icon: self.icon.clone(),
            created: self.created,
            modified: self.modified,
            accessed: self.accessed,
            size: self.size,
            mode: self.mode,
            inode: self.inode,
            nlink: self.nlink,
            username: self.username.clone(),
            groupname: self.groupname.clone(),
            blocksize: self.blocksize,
            blocks: self.blocks,
        }
    }
}

impl FileItem {
    #[allow(clippy::too_many_arguments)]
    pub fn new(
        name: String,
        path: String,
        last_modification: i64,
        icon: String,
        created: i64,
        modified: i64,
        accessed: i64,
        size: u64,
        mode: u32,
        inode: u64,
        nlink: u64,
        username: String,
        groupname: String,
        blocksize: u64,
        blocks: u64,
    ) -> (r: Self)
        ensures
            r.name == name,
            r.path == path,
            r.last_modification == last_modification,
            r.icon == icon,
            r.created == created,
            r.modified == modified,
            r.accessed == accessed,
            r.size == size,
            r.mode == mode,
            r.inode == inode,
            r.nlink == nlink,
            r.username == username,
            r.groupname == groupname,
            r.blocksize == blocksize,
            r.blocks == blocks,
    {
        FileItem {
            name,
            path,
            last_modification,
            icon,
            created,
            modified,
            accessed,
            size,
            mode,
            inode,
            nlink,
            username,
            groupname,
            blocksize,
            blocks,
        }
    }

    pub fn get_name(&self) -> (r: String)
        ensures
            r == self.name,
    {
        self.name.clone()
    }

    pub fn get_path(&self) -> (r: String)
        ensures
            r == self.path,
    {
        self.path.clone()
    }

    /// Whether the entry's name marks it as hidden (a leading dot).
    pub fn is_visible(&self) -> (r: bool)
        ensures
            r == spec_starts_with_dot(self.name@),
    {
        starts_with_dot(&self.name)
    }
}

impl Clone for SymlinkItem {
    fn clone(&self) -> (r: Self)
        ensures
            r == *self,
    {
        SymlinkItem {
            name: self.name.clone(),
            path: self.path.clone(),
            target: self.target.clone(),
            last_modification: self.last_modification,
            icon: self.icon.clone(),
            created: self.created,
            modified: self.modified,
            accessed: self.accessed,
            size: self.size,
            mode: self.mode,
            inode: self.inode,
            nlink: self.nlink,
            username: self.username.clone(),
            groupname: self.groupname.clone(),
            blocksize: self.blocksize,
            blocks: self.blocks,
        }
    }
}

impl SymlinkItem {
    #[allow(clippy::too_many_arguments)]
    pub fn new(
        name: String,
        path: String,
        target: String,
        last_modification: i64,
        icon: String,
        created: i64,
        modified: i64,
        accessed: i64,
        size: u64,
        mode: u32,
        inode: u64,
        nlink: u64,
        username: String,
        groupname: String,
        blocksize: u64,
        blocks: u64,
    ) -> (r: Self)
        ensures
            r.name == name,
            r.path == path,
            r.target == target,
            r.last_modification == last_modification,
            r.icon == icon,
            r.created == created,
            r.modified == modified,
            r.accessed == accessed,
            r.size == size,
            r.mode == mode,
            r.inode == inode,
            r.nlink == nlink,
            r.username == username,
            r.groupname == groupname,
            r.blocksize == blocksize,
            r.blocks == blocks,
    {
        SymlinkItem {
            name,
            path,
            target,
            last_modification,
            icon,
            created,
            modified,
            accessed,
            size,
            mode,
            inode,
            nlink,
            username,
            groupname,
            blocksize,
            blocks,
        }
    }

    pub fn get_name(&self) -> (r: String)
        ensures
            r == self.name,
    {
        self.name.clone()
    }

    pub fn get_path(&self) -> (r: String)
        ensures
            r == self.path,
    {
        self.path.clone()
    }

    /// Symbolic links are always shown.
    pub fn is_visible(&self) -> (r: bool)
        ensures
            r == true,
    {
        true
    }
}

impl Clone for FileSystemItem {
    fn clone(&self) -> (r: Self)
        ensures
            r == *self,
    {
        match self {
            FileSystemItem::Directory(dir) => FileSystemItem::Directory(dir.clone()),
            FileSystemItem::File(file) => FileSystemItem::File(file.clone()),
            FileSystemItem::Symlink(symlink) => FileSystemItem::Symlink(symlink.clone()),
            FileSystemItem::Unknown => FileSystemItem::Unknown,
        }
    }
}

impl FileSystemItem {
    /// The absolute path of the entry; empty for the unknown variant.
    pub open spec fn spec_path(&self) -> Seq<char> {
        match self {
            FileSystemItem::Directory(dir) => dir.path@,
            FileSystemItem::File(file) => file.path@,
            FileSystemItem::Symlink(symlink) => symlink.path@,
            FileSystemItem::Unknown => Seq::<char>::empty(),
        }
    }

    /// The display name of the entry; empty for the unknown variant.
    pub open spec fn spec_name(&self) -> Seq<char> {
        match self {
            FileSystemItem::Directory(dir) => dir.name@,
            FileSystemItem::File(file) => file.name@,
            FileSystemItem::Symlink(symlink) => symlink.name@,
            FileSystemItem::Unknown => Seq::<char>::empty(),
        }
    }

    pub open spec fn spec_is_dir(&self) -> bool {
        self is Directory
    }

    pub open spec fn spec_is_file(&self) -> bool {
        self is File
    }

    pub open spec fn spec_is_symlink(&self) -> bool {
        self is Symlink
    }

    pub open spec fn spec_size(&self) -> u64 {
        match self {
            FileSystemItem::Directory(dir) => dir.size,
            FileSystemItem::File(file) => file.size,
            FileSystemItem::Symlink(symlink) => symlink.size,
            FileSystemItem::Unknown => 0,
        }
    }

    pub open spec fn spec_modified(&self) -> i64 {
        match self {
            FileSystemItem::Directory(dir) => dir.modified,
            FileSystemItem::File(file) => file.modified,
            FileSystemItem::Symlink(symlink) => symlink.modified,
            FileSystemItem::Unknown => UNKNOWN_TIMESTAMP,
        }
    }

    pub open spec fn spec_created(&self) -> i64 {
        match self {
            FileSystemItem::Directory(dir) => dir.created,
            FileSystemItem::File(file) => file.created,
            FileSystemItem::Symlink(symlink) => symlink.created,
            FileSystemItem::Unknown => UNKNOWN_TIMESTAMP,
        }
    }

    pub open spec fn spec_accessed(&self) -> i64 {
        match self {
            FileSystemItem::Directory(dir) => dir.accessed,
            FileSystemItem::File(file) => file.accessed,
            FileSystemItem::Symlink(symlink) => symlink.accessed,
            FileSystemItem::Unknown => UNKNOWN_TIMESTAMP,
        }
    }

    pub open spec fn spec_mode(&self) -> u32 {
        match self {
            FileSystemItem::Directory(dir) => dir.mode,
            FileSystemItem::File(file) => file.mode,
            FileSystemItem::Symlink(symlink) => symlink.mode,
            FileSystemItem::Unknown => 0u32,
        }
    }

    pub open spec fn spec_inode(&self) -> u64 {
        match self {
            FileSystemItem::Directory(dir) => dir.inode,
            FileSystemItem::File(file) => file.inode,
            FileSystemItem::Symlink(symlink) => symlink.inode,
            FileSystemItem::Unknown => 0u64,
        }
    }

    pub open spec fn spec_nlink(&self) -> u64 {
        match self {
            FileSystemItem::Directory(dir) => dir.nlink,
            FileSystemItem::File(file) => file.nlink,
            FileSystemItem::Symlink(symlink) => symlink.nlink,
            FileSystemItem::Unknown => 0u64,
        }
    }

    pub open spec fn spec_username(&self) -> Seq<char> {
        match self {
            FileSystemItem::Directory(dir) => dir.username@,
            FileSystemItem::File(file) => file.username@,
            FileSystemItem::Symlink(symlink) => symlink.username@,
            FileSystemItem::Unknown => Seq::<char>::empty(),
        }
    }

    pub open spec fn spec_groupname(&self) -> Seq<char> {
        match self {
            FileSystemItem::Directory(dir) => dir.groupname@,
            FileSystemItem::File(file) => file.groupname@,
            FileSystemItem::Symlink(symlink) => symlink.groupname@,
            FileSystemItem::Unknown => Seq::<char>::empty(),
        }
    }

    pub open spec fn spec_blocksize(&self) -> u64 {
        match self {
            FileSystemItem::Directory(dir) => dir.blocksize,
            FileSystemItem::File(file) => file.blocksize,
            FileSystemItem::Symlink(symlink) => symlink.blocksize,
            FileSystemItem::Unknown => 0u64,
        }
    }

    pub open spec fn spec_blocks(&self) -> u64 {
        match self {
            FileSystemItem::Directory(dir) => dir.blocks,
            FileSystemItem::File(file) => file.blocks,
            FileSystemItem::Symlink(symlink) => symlink.blocks,
            FileSystemItem::Unknown => 0u64,
        }
    }

    pub fn get_path(&self) -> (r: String)
        ensures
            r@ == self.spec_path(),
    {
        match self {
            FileSystemItem::Directory(dir) => dir.get_path(),
            FileSystemItem::File(file) => file.get_path(),
            FileSystemItem::Symlink(symlink) => symlink.get_path(),
            FileSystemItem::Unknown => String::new(),
        }
    }

    pub fn get_name(&self) -> (r: String)
        ensures
            r@ == self.spec_name(),
    {
        match self {
            FileSystemItem::Directory(dir) => dir.get_name(),
            FileSystemItem::File(file) => file.get_name(),
            FileSystemItem::Symlink(symlink) => symlink.get_name(),
            FileSystemItem::Unknown => String::new(),
        }
    }

    pub fn is_symlink(&self) -> (r: bool)
        ensures
            r == self.spec_is_symlink(),
    {
        match self {
            FileSystemItem::Symlink(_) => true,
            _ => false,
        }
    }

    pub fn is_file(&self) -> (r: bool)
        ensures
            r == self.spec_is_file(),
    {
        match self {
            FileSystemItem::File(_) => true,
            _ => false,
        }
    }

    pub fn is_dir(&self) -> (r: bool)
        ensures
            r == self.spec_is_dir(),
    {
        match self {
            FileSystemItem::Directory(_) => true,
            _ => false,
        }
    }

    pub fn is_visible(&self) -> (r: bool)
        ensures
            r == match self {
                FileSystemItem::Directory(dir) => spec_starts_with_dot(dir.name@),
                FileSystemItem::File(file) => spec_starts_with_dot(file.name@),
                FileSystemItem::Symlink(_) => true,
                FileSystemItem::Unknown => false,
            },
    {
        match self {
            FileSystemItem::Directory(dir) => dir.is_visible(),
            FileSystemItem::File(file) => file.is_visible(),
            FileSystemItem::Symlink(symlink) => symlink.is_visible(),
            FileSystemItem::Unknown => false,
        }
    }

    pub fn get_created(&self) -> (r: i64)
        ensures
            r == self.spec_created(),
    {
        match self {
            FileSystemItem::Directory(dir) => dir.created,
            FileSystemItem::File(file) => file.created,
            FileSystemItem::Symlink(symlink) => symlink.created,
            FileSystemItem::Unknown => UNKNOWN_TIMESTAMP,
        }
    }

    pub fn get_modified(&self) -> (r: i64)
        ensures
            r == self.spec_modified(),
    {
        match self {
            FileSystemItem::Directory(dir) => dir.modified,
            FileSystemItem::File(file) => file.modified,
            FileSystemItem::Symlink(symlink) => symlink.modified,
            FileSystemItem::Unknown => UNKNOWN_TIMESTAMP,
        }
    }

    pub fn get_accessed(&self) -> (r: i64)
        ensures
            r == self.spec_accessed(),
    {
        match self {
            FileSystemItem::Directory(dir) => dir.accessed,
            FileSystemItem::File(file) => file.accessed,
            FileSystemItem::Symlink(symlink) => symlink.accessed,
            FileSystemItem::Unknown => UNKNOWN_TIMESTAMP,
        }
    }

    pub fn get_size(&self) -> (r: u64)
        ensures
            r == self.spec_size(),
    {
        match self {
            FileSystemItem::Directory(dir) => dir.size,
            FileSystemItem::File(file) => file.size,
            FileSystemItem::Symlink(symlink) => symlink.size,
            FileSystemItem::Unknown => 0,
        }
    }

    pub fn get_mode(&self) -> (r: u32)
        ensures
            r == self.spec_mode(),
    {
        match self {
            FileSystemItem::Directory(dir) => dir.mode,
            FileSystemItem::File(file) => file.mode,
            FileSystemItem::Symlink(symlink) => symlink.mode,
            FileSystemItem::Unknown => 0,
        }
    }

    pub fn get_inode(&self) -> (r: u64)
        ensures
            r == self.spec_inode(),
    {
        match self {
            FileSystemItem::Directory(dir) => dir.inode,
            FileSystemItem::File(file) => file.inode,
            FileSystemItem::Symlink(symlink) => symlink.inode,
            FileSystemItem::Unknown => 0,
        }
    }

    pub fn get_nlink(&self) -> (r: u64)
        ensures
            r == self.spec_nlink(),
    {
        match self {
            FileSystemItem::Directory(dir) => dir.nlink,
            FileSystemItem::File(file) => file.nlink,
            FileSystemItem::Symlink(symlink) => symlink.nlink,
            FileSystemItem::Unknown => 0,
        }
    }

    pub fn get_username(&self) -> (r: String)
        ensures
            r@ == self.spec_username(),
    {
        match self {
            FileSystemItem::Directory(dir) => dir.username.clone(),
            FileSystemItem::File(file) => file.username.clone(),
            FileSystemItem::Symlink(symlink) => symlink.username.clone(),
            FileSystemItem::Unknown => String::new(),
        }
    }

    pub fn get_groupname(&self) -> (r: String)
        ensures
            r@ == self.spec_groupname(),
    {
        match self {
            FileSystemItem::Directory(dir) => dir.groupname.clone(),
            FileSystemItem::File(file) => file.groupname.clone(),
            FileSystemItem::Symlink(symlink) => symlink.groupname.clone(),
            FileSystemItem::Unknown => String::new(),
        }
    }

    pub fn get_blocksize(&self) -> (r: u64)
        ensures
            r == self.spec_blocksize(),
    {
        match self {
            FileSystemItem::Directory(dir) => dir.blocksize,
            FileSystemItem::File(file) => file.blocksize,
            FileSystemItem::Symlink(symlink) => symlink.blocksize,
            FileSystemItem::Unknown => 0,
        }
    }

    pub fn get_blocks(&self) -> (r: u64)
        ensures
            r == self.spec_blocks(),
    {
        match self {
            FileSystemItem::Directory(dir) => dir.blocks,
            FileSystemItem::File(file) => file.blocks,
            FileSystemItem::Symlink(symlink) => symlink.blocks,
            FileSystemItem::Unknown => 0,
        }
    }
}

/// Relies on chrono's local time zone: renders a Unix timestamp as a
/// local "year-month-day hour:minute:second" string.  The result
/// depends on the machine's time zone, so nothing is promised of it.
#[verifier::external_body]
pub fn format_timestamp(secs: i64) -> (r: String) {
    match chrono::Local.timestamp_opt(secs, 0) {
        chrono::LocalResult::Single(dt) => dt.format("%Y-%m-%d %H:%M:%S").to_string(),
        _ => String::new(),
    }
}

/// A copy of a listing, item for item.
pub fn clone_items(items: &Vec<FileSystemItem>) -> (r: Vec<FileSystemItem>)
    ensures
        r@ == items@,
{
    let len = items.len();
    let mut r: Vec<FileSystemItem> = Vec::new();
    let mut i: usize = 0;
    while i < len
        invariant
            0 <= i <= len,
            len == items@.len(),
            r@ =~= items@.take(i as int),
        decreases len - i,
    {
        r.push((&items[i]).clone());
        proof {
            assert(r@ =~= items@.take(i as int + 1));
        }
        i += 1;
    }
    proof {
        assert(items@.take(len as int) =~= items@);
    }
    r
}

/// The canonical name and path of a directory, as resolved by the
/// embedding program.
#[derive(Clone, Debug)]
pub struct DirInfo {
    pub name: String,
    pub path: String,
}

} // verus!
