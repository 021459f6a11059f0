use vstd::prelude::*;

verus! {

/// A Linux namespace that a child process can be placed in afresh.
#[derive(Clone, Copy, Debug, PartialEq, Eq, Structural)]
pub enum Namespace {
    /// The mount table.
    Mount,
    /// The host and domain names.
    Uts,
    /// System V IPC objects and POSIX message queues.
    Ipc,
    /// User and group IDs.
    User,
    /// Process IDs.
    Pid,
    /// The network stack.
    Net,
}

/// The `clone` flag that asks for a fresh namespace of the given kind.
pub open spec fn flag_of(ns: Namespace) -> i32 {
    match ns {
        Namespace::Mount => 0x20000,
        Namespace::Uts => 0x4000000,
        Namespace::Ipc => 0x8000000,
        Namespace::User => 0x10000000,
        Namespace::Pid => 0x20000000,
        Namespace::Net => 0x40000000,
    }
}

/// The union of the six namespace flags.
pub open spec fn all_flags() -> i32 {
    0x7C020000
}

/// The namespaces whose flags are set in `bits`.
pub open spec fn namespaces_in(bits: i32) -> Set<Namespace> {
    Set::new(|ns: Namespace| bits & flag_of(ns) != 0)
}

/// The flags of a set of namespaces, unioned together.
pub open spec fn flags_of(s: Set<Namespace>) -> i32 {
    (if s.contains(Namespace::Mount) { flag_of(Namespace::Mount) } else { 0 })
        | (if s.contains(Namespace::Uts) { flag_of(Namespace::Uts) } else { 0 })
        | (if s.contains(Namespace::Ipc) { flag_of(Namespace::Ipc) } else { 0 })
        | (if s.contains(Namespace::User) { flag_of(Namespace::User) } else { 0 })
        | (if s.contains(Namespace::Pid) { flag_of(Namespace::Pid) } else { 0 })
        | (if s.contains(Namespace::Net) { flag_of(Namespace::Net) } else { 0 })
}

/// Relies on nix::sched::CloneFlags::CLONE_NEWNS, whose bits are libc's CLONE_NEWNS.
#[verifier::external_body]
fn clone_newns() -> (r: i32)
    ensures
        r == flag_of(Namespace::Mount),
{
    nix::sched::CloneFlags::CLONE_NEWNS.bits()
}

/// Relies on nix::sched::CloneFlags::CLONE_NEWUTS, whose bits are libc's CLONE_NEWUTS.
#[verifier::external_body]
fn clone_newuts() -> (r: i32)
    ensures
        r == flag_of(Namespace::Uts),
{
    nix::sched::CloneFlags::CLONE_NEWUTS.bits()
}

/// Relies on nix::sched::CloneFlags::CLONE_NEWIPC, whose bits are libc's CLONE_NEWIPC.
#[verifier::external_body]
fn clone_newipc() -> (r: i32)
    ensures
        r == flag_of(Namespace::Ipc),
{
    nix::sched::CloneFlags::CLONE_NEWIPC.bits()
}

/// Relies on nix::sched::CloneFlags::CLONE_NEWUSER, whose bits are libc's CLONE_NEWUSER.
#[verifier::external_body]
fn clone_newuser() -> (r: i32)
    ensures
        r == flag_of(Namespace::User),
{
    nix::sched::CloneFlags::CLONE_NEWUSER.bits()
}

/// Relies on nix::sched::CloneFlags::CLONE_NEWPID, whose bits are libc's CLONE_NEWPID.
#[verifier::external_body]
fn clone_newpid() -> (r: i32)
    ensures
        r == flag_of(Namespace::Pid),
{
    nix::sched::CloneFlags::CLONE_NEWPID.bits()
}

/// Relies on nix::sched::CloneFlags::CLONE_NEWNET, whose bits are libc's CLONE_NEWNET.
#[verifier::external_body]
fn clone_newnet() -> (r: i32)
    ensures
        r == flag_of(Namespace::Net),
{
    nix::sched::CloneFlags::CLONE_NEWNET.bits()
}

impl Namespace {
    /// The `clone` flag of this namespace, as nix gives it.
    pub fn clone_flag(self) -> (r: i32)
        ensures
            r == flag_of(self),
    {
        match self {
            Namespace::Mount => clone_newns(),
            Namespace::Uts => clone_newuts(),
            Namespace::Ipc => clone_newipc(),
            Namespace::User => clone_newuser(),
            Namespace::Pid => clone_newpid(),
            Namespace::Net => clone_newnet(),
        }
    }
}

proof fn lemma_flags_distinct(x: i32, y: i32)
    by (bit_vector)
    requires
        x == 0x20000 || x == 0x4000000 || x == 0x8000000 || x == 0x10000000 || x == 0x20000000
            || x == 0x40000000,
        y == 0x20000 || y == 0x4000000 || y == 0x8000000 || y == 0x10000000 || y == 0x20000000
            || y == 0x40000000,
    ensures
        (x & y != 0) <==> x == y,
{
}

proof fn lemma_or_and(b: i32, x: i32, y: i32)
    by (bit_vector)
    ensures
        ((b | x) & y != 0) <==> (b & y != 0 || x & y != 0),
{
}

/// Adding the flag of `ns` to `bits` adds `ns` to the namespaces they hold,
/// and keeps the bits within the six namespace flags.
pub proof fn lemma_add_flag(bits: i32, ns: Namespace)
    ensures
        namespaces_in(bits | flag_of(ns)) == namespaces_in(bits).insert(ns),
        bits & !all_flags() == 0 ==> (bits | flag_of(ns)) & !all_flags() == 0,
{
    assert forall|m: Namespace| namespaces_in(bits | flag_of(ns)).contains(m)
        <==> namespaces_in(bits).insert(ns).contains(m) by {
        lemma_or_and(bits, flag_of(ns), flag_of(m));
        lemma_flags_distinct(flag_of(ns), flag_of(m));
    }
    assert(namespaces_in(bits | flag_of(ns)) =~= namespaces_in(bits).insert(ns));
    let f = flag_of(ns);
    assert(f & !0x7C020000i32 == 0 && (bits & !0x7C020000i32 == 0 ==> (bits | f) & !0x7C020000i32
        == 0)) by (bit_vector)
        requires
            f == 0x20000 || f == 0x4000000 || f == 0x8000000 || f == 0x10000000 || f
                == 0x20000000 || f == 0x40000000,
    ;
}

/// Bits within the six namespace flags are the flags of the namespaces they hold.
pub proof fn lemma_bits_are_flags(bits: i32)
    requires
        bits & !all_flags() == 0,
    ensures
        bits == flags_of(namespaces_in(bits)),
{
    let s = namespaces_in(bits);
    assert(s.contains(Namespace::Mount) == (bits & 0x20000 != 0));
    assert(s.contains(Namespace::Uts) == (bits & 0x4000000 != 0));
    assert(s.contains(Namespace::Ipc) == (bits & 0x8000000 != 0));
    assert(s.contains(Namespace::User) == (bits & 0x10000000 != 0));
    assert(s.contains(Namespace::Pid) == (bits & 0x20000000 != 0));
    assert(s.contains(Namespace::Net) == (bits & 0x40000000 != 0));
    assert(bits & !0x7C020000i32 == 0 ==> bits == (if bits & 0x20000 != 0 { 0x20000i32 } else { 0 })
        | (if bits & 0x4000000 != 0 { 0x4000000i32 } else { 0 }) | (if bits & 0x8000000 != 0 {
        0x8000000i32
    } else {
        0
    }) | (if bits & 0x10000000 != 0 { 0x10000000i32 } else { 0 }) | (if bits & 0x20000000 != 0 {
        0x20000000i32
    } else {
        0
    }) | (if bits & 0x40000000 != 0 { 0x40000000i32 } else { 0 })) by (bit_vector);
}

} // verus!
