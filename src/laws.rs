//! Properties of the policy and of the batch, stated over the models that the
//! functions' contracts use.

use vstd::prelude::*;
use crate::mode::{
    grants, in_scope, kind_of, meets_policy, normalized, permission_bit, planned_mode,
    protection_in, FileKind, Permission, Protection, Subject,
};
use crate::outcome::{read_step, write_outcome, IoFailure, Outcome, Step, WriteFailure};
use crate::batch::{Action, BatchModel, Event};

verus! {

proof fn lemma_policy_bits(mode: u32)
    by (bit_vector)
    ensures
        (mode | 0o664u32 == mode) <==> (mode & 0o400u32 != 0 && mode & 0o200u32 != 0 && mode
            & 0o040u32 != 0 && mode & 0o020u32 != 0 && mode & 0o004u32 != 0),
        (mode | 0o775u32 == mode) <==> (mode & 0o400u32 != 0 && mode & 0o200u32 != 0 && mode
            & 0o040u32 != 0 && mode & 0o020u32 != 0 && mode & 0o004u32 != 0 && mode & 0o100u32
            != 0 && mode & 0o010u32 != 0 && mode & 0o001u32 != 0),
        (mode | 0o664u32) & 0o170000u32 == mode & 0o170000u32,
        (mode | 0o775u32) & 0o170000u32 == mode & 0o170000u32,
        (mode | 0o664u32) | 0o664u32 == mode | 0o664u32,
        (mode | 0o775u32) | 0o775u32 == mode | 0o775u32,
{
}

proof fn lemma_or_keeps_bits(mode: u32, k: u32, b: u32)
    by (bit_vector)
    ensures
        (mode | k) & mode == mode,
        mode & b != 0 ==> (mode | k) & b != 0,
{
}

proof fn lemma_from_nothing(mode: u32)
    by (bit_vector)
    requires
        mode & 0o777u32 == 0,
    ensures
        (mode | 0o775u32) & 0o400u32 != 0,
        (mode | 0o775u32) & 0o200u32 != 0,
        (mode | 0o775u32) & 0o100u32 != 0,
        (mode | 0o775u32) & 0o040u32 != 0,
        (mode | 0o775u32) & 0o020u32 != 0,
        (mode | 0o775u32) & 0o010u32 != 0,
        (mode | 0o775u32) & 0o004u32 != 0,
        (mode | 0o775u32) & 0o002u32 == 0,
        (mode | 0o775u32) & 0o001u32 != 0,
        (mode | 0o664u32) & 0o400u32 != 0,
        (mode | 0o664u32) & 0o200u32 != 0,
        (mode | 0o664u32) & 0o100u32 == 0,
        (mode | 0o664u32) & 0o040u32 != 0,
        (mode | 0o664u32) & 0o020u32 != 0,
        (mode | 0o664u32) & 0o010u32 == 0,
        (mode | 0o664u32) & 0o004u32 != 0,
        (mode | 0o664u32) & 0o002u32 == 0,
        (mode | 0o664u32) & 0o001u32 == 0,
        mode | 0o775u32 != mode,
        mode | 0o664u32 != mode,
{
}

/// An entry that already meets the policy is left as it is: no mode is
/// written and the outcome is `Unchanged`.
pub proof fn lemma_conformant_left_alone(mode: u32)
    requires
        in_scope(mode),
        meets_policy(mode),
    ensures
        planned_mode(mode) == None::<u32>,
        read_step(Ok(mode)) == Step::Done(Outcome::Unchanged),
{
    lemma_policy_bits(mode);
}

/// The mode written for an entry meets the policy and keeps the entry's
/// type, so processing the entry again writes nothing.
pub proof fn lemma_normalize_idempotent(mode: u32)
    requires
        planned_mode(mode) is Some,
    ensures
        meets_policy(normalized(mode)),
        kind_of(normalized(mode)) == kind_of(mode),
        planned_mode(normalized(mode)) == None::<u32>,
        read_step(Ok(normalized(mode))) == Step::Done(Outcome::Unchanged),
{
    lemma_policy_bits(mode);
    lemma_policy_bits(normalized(mode));
}

/// Normalisation only adds bits: every bit set in the old mode, and so every
/// permission it grants, is set in the mode written.
pub proof fn lemma_bits_only_added(mode: u32, n: u32)
    requires
        read_step(Ok(mode)) == Step::Write(n),
    ensures
        n & mode == mode,
        forall|s: Subject, p: Permission| grants(mode, s, p) ==> #[trigger] grants(n, s, p),
{
    let k = if kind_of(mode) == Some(FileKind::Directory) { 0o775u32 } else { 0o664u32 };
    assert(n == mode | k);
    lemma_or_keeps_bits(mode, k, 0);
    assert forall|s: Subject, p: Permission| grants(mode, s, p) implies #[trigger] grants(n, s, p) by {
        lemma_or_keeps_bits(mode, k, permission_bit(s, p));
    }
}

/// A directory that grants nothing to anyone is given `rwxrwxr-x`; once that
/// mode is written the outcome is `Updated` with it.
pub proof fn lemma_bare_directory(mode: u32)
    requires
        kind_of(mode) == Some(FileKind::Directory),
        mode & 0o777u32 == 0,
    ensures
        read_step(Ok(mode)) == Step::Write(mode | 0o775u32),
        write_outcome(mode | 0o775u32, Ok(())) == Outcome::Updated(mode | 0o775u32),
        protection_in(mode | 0o775u32, Subject::Owner) == (Protection { read: true, write: true, execute: true }),
        protection_in(mode | 0o775u32, Subject::Group) == (Protection { read: true, write: true, execute: true }),
        protection_in(mode | 0o775u32, Subject::Other) == (Protection { read: true, write: false, execute: true }),
{
    lemma_from_nothing(mode);
}

/// A regular file that grants nothing to anyone is given `rw-rw-r--`:
/// execute stays absent for all three subjects.
pub proof fn lemma_bare_regular_file(mode: u32)
    requires
        kind_of(mode) == Some(FileKind::RegularFile),
        mode & 0o777u32 == 0,
    ensures
        read_step(Ok(mode)) == Step::Write(mode | 0o664u32),
        write_outcome(mode | 0o664u32, Ok(())) == Outcome::Updated(mode | 0o664u32),
        protection_in(mode | 0o664u32, Subject::Owner) == (Protection { read: true, write: true, execute: false }),
        protection_in(mode | 0o664u32, Subject::Group) == (Protection { read: true, write: true, execute: false }),
        protection_in(mode | 0o664u32, Subject::Other) == (Protection { read: true, write: false, execute: false }),
{
    lemma_from_nothing(mode);
}

/// An entry that is neither a directory nor a regular file (a symbolic link,
/// a device, a socket, a fifo) is never written, whatever its bits.
pub proof fn lemma_other_types_skipped(mode: u32)
    requires
        !in_scope(mode),
    ensures
        planned_mode(mode) == None::<u32>,
        read_step(Ok(mode)) == Step::Done(Outcome::Skipped),
{
}

/// In a batch, reading an entry that is neither a directory nor a regular
/// file records it as `Skipped` and asks for no write: the batch goes on to
/// the next path.
pub proof fn lemma_batch_never_writes_other_types(m: BatchModel, mode: u32)
    requires
        m.wf(),
        m.action() is Read,
        !in_scope(mode),
    ensures
        m.next(Event::Read(Ok(mode))).pending == None::<u32>,
        m.next(Event::Read(Ok(mode))).outcomes == m.outcomes.push(Outcome::Skipped),
        !(m.next(Event::Read(Ok(mode))).action() is Write),
{
}

/// A path that is not found, when its mode is read or when it is written, is
/// no error: the outcome is `Vanished` and nothing is written.
pub proof fn lemma_not_found_is_benign(m: u32)
    ensures
        read_step(Err(IoFailure::NotFound)) == Step::Done(Outcome::Vanished),
        write_outcome(m, Err(WriteFailure::Io(IoFailure::NotFound))) == Outcome::Vanished,
{
}

/// A path whose mode cannot be read does not stop the batch: it gets the
/// outcome `ReadError`, the outcomes before it stay, and the next path is
/// read next if there is one.
pub proof fn lemma_read_error_moves_on(m: BatchModel)
    requires
        m.wf(),
        m.action() is Read,
    ensures
        m.next(Event::Read(Err(IoFailure::Other))).outcomes == m.outcomes.push(Outcome::ReadError),
        m.next(Event::Read(Err(IoFailure::Other))).wf(),
        m.outcomes.len() + 1 < m.total ==> m.next(Event::Read(Err(IoFailure::Other))).action()
            == Action::Read((m.outcomes.len() + 1) as usize),
        m.outcomes.len() + 1 == m.total ==> m.next(Event::Read(Err(IoFailure::Other))).action()
            == Action::Finish,
{
}

/// What a path comes to depends on its own events only: from any two states
/// at the same point of a path, an event leaves the same pending mode and
/// appends the same outcomes, and the outcomes of earlier paths stay.
pub proof fn lemma_paths_independent(m1: BatchModel, m2: BatchModel, ev: Event)
    requires
        m1.wf(),
        m2.wf(),
        m1.outcomes.len() < m1.total,
        m2.outcomes.len() < m2.total,
        m1.pending == m2.pending,
    ensures
        m1.next(ev).pending == m2.next(ev).pending,
        m1.next(ev).outcomes.take(m1.outcomes.len() as int) == m1.outcomes,
        m1.next(ev).outcomes.skip(m1.outcomes.len() as int) == m2.next(ev).outcomes.skip(
            m2.outcomes.len() as int,
        ),
{
    let n1 = m1.next(ev);
    let n2 = m2.next(ev);
    assert(n1.outcomes.take(m1.outcomes.len() as int) =~= m1.outcomes);
    assert(n1.outcomes.skip(m1.outcomes.len() as int) =~= n2.outcomes.skip(m2.outcomes.len() as int));
}

} // verus!
