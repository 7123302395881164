//! The mode value of a filesystem entry and the permission policy over it.

use vstd::prelude::*;
use file_mode::{FileType, Mode, ProtectionBit, User};

verus! {

/// Type of an entry as encoded in the file-type bits of its mode.
#[derive(Clone, Copy, Debug, PartialEq, Eq)]
pub enum FileKind {
    Directory,
    CharacterDevice,
    BlockDevice,
    RegularFile,
    Fifo,
    SymbolicLink,
    Socket,
}

/// The bits of a mode value that encode the entry's type.
pub const FILE_TYPE_BITS: u32 = 0o170000;

/// The type that the file-type bits of `mode` encode, if they encode one.
pub open spec fn kind_of(mode: u32) -> Option<FileKind> {
    let t = mode & FILE_TYPE_BITS;
    if t == 0o040000 {
        Some(FileKind::Directory)
    } else if t == 0o020000 {
        Some(FileKind::CharacterDevice)
    } else if t == 0o060000 {
        Some(FileKind::BlockDevice)
    } else if t == 0o100000 {
        Some(FileKind::RegularFile)
    } else if t == 0o010000 {
        Some(FileKind::Fifo)
    } else if t == 0o120000 {
        Some(FileKind::SymbolicLink)
    } else if t == 0o140000 {
        Some(FileKind::Socket)
    } else {
        None
    }
}

/// Relies on file_mode::FileType::from_mode: it matches the file-type bits
/// against the seven encodings of sys/stat.h.
#[verifier::external_body]
fn file_kind(mode: u32) -> (r: Option<FileKind>)
    ensures
        r == kind_of(mode),
{
    match FileType::from_mode(mode) {
        Some(FileType::Directory) => Some(FileKind::Directory),
        Some(FileType::CharacterDevice) => Some(FileKind::CharacterDevice),
        Some(FileType::BlockDevice) => Some(FileKind::BlockDevice),
        Some(FileType::RegularFile) => Some(FileKind::RegularFile),
        Some(FileType::FIFO) => Some(FileKind::Fifo),
        Some(FileType::SymbolicLink) => Some(FileKind::SymbolicLink),
        Some(FileType::Socket) => Some(FileKind::Socket),
        None => None,
    }
}

/// One of the three subjects that a mode grants access to.
#[derive(Clone, Copy, Debug, PartialEq, Eq)]
pub enum Subject {
    Owner,
    Group,
    Other,
}

/// One capability flag of a subject.
#[derive(Clone, Copy, Debug, PartialEq, Eq)]
pub enum Permission {
    Read,
    Write,
    Execute,
}

/// The three capability flags that a mode grants one subject.
#[derive(Clone, Copy, Debug, PartialEq, Eq)]
pub struct Protection {
    pub read: bool,
    pub write: bool,
    pub execute: bool,
}

/// The single mode bit that grants `perm` to `subject` (`rwxrwxrwx`, owner first).
pub open spec fn permission_bit(subject: Subject, perm: Permission) -> u32 {
    match (subject, perm) {
        (Subject::Owner, Permission::Read) => 0o400,
        (Subject::Owner, Permission::Write) => 0o200,
        (Subject::Owner, Permission::Execute) => 0o100,
        (Subject::Group, Permission::Read) => 0o040,
        (Subject::Group, Permission::Write) => 0o020,
        (Subject::Group, Permission::Execute) => 0o010,
        (Subject::Other, Permission::Read) => 0o004,
        (Subject::Other, Permission::Write) => 0o002,
        (Subject::Other, Permission::Execute) => 0o001,
    }
}

/// Whether `mode` grants `perm` to `subject`.
pub open spec fn grants(mode: u32, subject: Subject, perm: Permission) -> bool {
    mode & permission_bit(subject, perm) != 0
}

/// The protection set that `mode` gives `subject`.
pub open spec fn protection_in(mode: u32, subject: Subject) -> Protection {
    Protection {
        read: grants(mode, subject, Permission::Read),
        write: grants(mode, subject, Permission::Write),
        execute: grants(mode, subject, Permission::Execute),
    }
}

/// Relies on file_mode::Mode::new (a mask of all ones keeps the value whole),
/// Mode::user_protection and Protection::is_read_set, is_write_set,
/// is_execute_set: each reports the subject's bit of the mode.
#[verifier::external_body]
fn protection_of(mode: u32, subject: Subject) -> (r: Protection)
    ensures
        r == protection_in(mode, subject),
{
    let user = match subject {
        Subject::Owner => User::Owner,
        Subject::Group => User::Group,
        Subject::Other => User::Other,
    };
    let p = Mode::new(mode, u32::MAX).user_protection(user);
    Protection { read: p.is_read_set(), write: p.is_write_set(), execute: p.is_execute_set() }
}

/// Relies on file_mode::Mode::new (a mask of all ones keeps the value whole),
/// on file_mode's `From<ProtectionBit> for Protection` (a protection
/// that holds that one bit, set, and leaves the others unspecified) and on
/// Mode::set_protection and Mode::mode: writing it for the subject sets that
/// bit and keeps every other bit of the mode.
#[verifier::external_body]
fn grant(mode: u32, subject: Subject, perm: Permission) -> (r: u32)
    ensures
        r == mode | permission_bit(subject, perm),
{
    let user = match subject {
        Subject::Owner => User::Owner,
        Subject::Group => User::Group,
        Subject::Other => User::Other,
    };
    let bit = match perm {
        Permission::Read => ProtectionBit::Read,
        Permission::Write => ProtectionBit::Write,
        Permission::Execute => ProtectionBit::Execute,
    };
    let mut m = Mode::new(mode, u32::MAX);
    m.set_protection(user, &file_mode::Protection::from(bit));
    m.mode()
}

/// The bits that the policy asks of a directory (`rwxrwxr-x`) or of a
/// regular file (`rw-rw-r--`).
pub open spec fn required_bits(is_dir: bool) -> u32 {
    if is_dir {
        0o775
    } else {
        0o664
    }
}

/// Whether the policy applies to `mode`: it is a directory or a regular file.
pub open spec fn in_scope(mode: u32) -> bool {
    kind_of(mode) == Some(FileKind::Directory) || kind_of(mode) == Some(FileKind::RegularFile)
}

/// Whether `mode` already grants what the policy asks: read and write to
/// owner and group, read to others, and for a directory execute to all three.
pub open spec fn meets_policy(mode: u32) -> bool {
    &&& grants(mode, Subject::Owner, Permission::Read)
    &&& grants(mode, Subject::Owner, Permission::Write)
    &&& grants(mode, Subject::Group, Permission::Read)
    &&& grants(mode, Subject::Group, Permission::Write)
    &&& grants(mode, Subject::Other, Permission::Read)
    &&& kind_of(mode) == Some(FileKind::Directory) ==> {
        &&& grants(mode, Subject::Owner, Permission::Execute)
        &&& grants(mode, Subject::Group, Permission::Execute)
        &&& grants(mode, Subject::Other, Permission::Execute)
    }
}

/// `mode` with every bit that the policy asks of it added.
pub open spec fn normalized(mode: u32) -> u32 {
    mode | required_bits(kind_of(mode) == Some(FileKind::Directory))
}

/// The mode to write back for an entry whose mode is `mode`: none where the
/// policy does not apply or where no bit is missing.
pub open spec fn planned_mode(mode: u32) -> Option<u32> {
    if in_scope(mode) && normalized(mode) != mode {
        Some(normalized(mode))
    } else {
        None
    }
}

proof fn lemma_grant_step(mode: u32, acc: u32, b: u32)
    by (bit_vector)
    requires
        b == 1 || b == 2 || b == 4 || b == 8 || b == 16 || b == 32 || b == 64 || b == 128
            || b == 256,
    ensures
        (mode | acc) | b == mode | (acc | b),
        mode & b != 0 ==> mode | (acc | b) == mode | acc,
        mode & b == 0 ==> mode | (acc | b) != mode,
{
}

proof fn lemma_policy_sums()
    by (bit_vector)
    ensures
        ((((0u32 | 0o400u32) | 0o200u32) | 0o040u32) | 0o020u32) | 0o004u32 == 0o664u32,
        (((((((0u32 | 0o400u32) | 0o200u32) | 0o040u32) | 0o020u32) | 0o004u32) | 0o100u32)
            | 0o010u32) | 0o001u32 == 0o775u32,
{
}

/// Whether the policy applies to an entry with mode `mode`.
pub fn is_in_scope(mode: u32) -> (r: bool)
    ensures
        r == in_scope(mode),
{
    match file_kind(mode) {
        Some(FileKind::Directory) | Some(FileKind::RegularFile) => true,
        _ => false,
    }
}

/// Computes the mode that brings an entry up to the policy, or `None` where
/// nothing is to be written: the entry is neither a directory nor a regular
/// file, or it already has every bit that the policy asks for.
pub fn plan_update(mode: u32) -> (r: Option<u32>)
    ensures
        r == planned_mode(mode),
{
    let kind = file_kind(mode);
    let is_dir = match kind {
        Some(FileKind::Directory) => true,
        Some(FileKind::RegularFile) => false,
        _ => {
            return None;
        },
    };
    let mut new_mode = mode;
    let mut should_update = false;
    let ghost mut acc: u32 = 0;
    assert(mode | 0u32 == mode) by (bit_vector);

    let owner = protection_of(mode, Subject::Owner);
    let group = protection_of(mode, Subject::Group);
    let other = protection_of(mode, Subject::Other);

    proof { lemma_grant_step(mode, acc, 0o400); }
    if !owner.read {
        should_update = true;
        new_mode = grant(new_mode, Subject::Owner, Permission::Read);
    }
    proof { acc = acc | 0o400u32; lemma_grant_step(mode, acc, 0o200); }
    if !owner.write {
        should_update = true;
        new_mode = grant(new_mode, Subject::Owner, Permission::Write);
    }
    proof { acc = acc | 0o200u32; lemma_grant_step(mode, acc, 0o040); }
    if !group.read {
        should_update = true;
        new_mode = grant(new_mode, Subject::Group, Permission::Read);
    }
    proof { acc = acc | 0o040u32; lemma_grant_step(mode, acc, 0o020); }
    if !group.write {
        should_update = true;
        new_mode = grant(new_mode, Subject::Group, Permission::Write);
    }
    proof { acc = acc | 0o020u32; lemma_grant_step(mode, acc, 0o004); }
    if !other.read {
        should_update = true;
        new_mode = grant(new_mode, Subject::Other, Permission::Read);
    }
    proof { acc = acc | 0o004u32; }

    if is_dir {
        proof { lemma_grant_step(mode, acc, 0o100); }
        if !owner.execute {
            should_update = true;
            new_mode = grant(new_mode, Subject::Owner, Permission::Execute);
        }
        proof { acc = acc | 0o100u32; lemma_grant_step(mode, acc, 0o010); }
        if !group.execute {
            should_update = true;
            new_mode = grant(new_mode, Subject::Group, Permission::Execute);
        }
        proof { acc = acc | 0o010u32; lemma_grant_step(mode, acc, 0o001); }
        if !other.execute {
            should_update = true;
            new_mode = grant(new_mode, Subject::Other, Permission::Execute);
        }
        proof { acc = acc | 0o001u32; }
    }
    proof { lemma_policy_sums(); }

    if should_update {
        Some(new_mode)
    } else {
        None
    }
}

} // verus!
