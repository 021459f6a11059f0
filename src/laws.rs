use vstd::prelude::*;

use crate::command::CommandView;
use crate::namespace::Namespace;

verus! {

/// Unsharing depends only on which namespaces were asked for, over all calls
/// together: two calls give the same configuration as one call with every
/// namespace of both, in any order and with any repeats.
pub proof fn lemma_unshare_is_union(v: CommandView, a: Seq<Namespace>, b: Seq<Namespace>, c: Seq<Namespace>)
    requires
        c.to_set() == a.to_set().union(b.to_set()),
    ensures
        v.with_namespaces(a).with_namespaces(b) == v.with_namespaces(c),
{
    assert(v.namespaces.union(a.to_set()).union(b.to_set()) =~= v.namespaces.union(c.to_set()));
}

/// Unsharing the same namespaces twice has no further effect.
pub proof fn lemma_unshare_idempotent(v: CommandView, a: Seq<Namespace>)
    ensures
        v.with_namespaces(a).with_namespaces(a) == v.with_namespaces(a),
{
    assert(v.namespaces.union(a.to_set()).union(a.to_set()) =~= v.namespaces.union(a.to_set()));
}

/// Unsharing never drops a namespace asked for before.
pub proof fn lemma_unshare_keeps(v: CommandView, a: Seq<Namespace>)
    ensures
        v.namespaces.subset_of(v.with_namespaces(a).namespaces),
        a.to_set().subset_of(v.with_namespaces(a).namespaces),
{
}

/// Of two death-signal settings (a signal, or none to allow daemonizing),
/// the later one decides.
pub proof fn lemma_death_signal_last_wins(v: CommandView, first: Option<i32>, second: Option<i32>)
    ensures
        v.with_death_signal(first).with_death_signal(second) == v.with_death_signal(second),
{
}

/// Of two chroot directories the later one stays; setting the same one
/// twice is the same as setting it once.
pub proof fn lemma_chroot_last_wins(v: CommandView, first: Seq<char>, second: Seq<char>)
    ensures
        v.with_chroot(first).with_chroot(second) == v.with_chroot(second),
        v.with_chroot(second).with_chroot(second) == v.with_chroot(second),
{
}

/// Of two pivots the later one stays; setting the same one twice is the
/// same as setting it once.
pub proof fn lemma_pivot_last_wins(
    v: CommandView,
    first: (Seq<char>, Seq<char>, bool),
    second: (Seq<char>, Seq<char>, bool),
)
    ensures
        v.with_pivot(first.0, first.1, first.2).with_pivot(second.0, second.1, second.2)
            == v.with_pivot(second.0, second.1, second.2),
        v.with_pivot(second.0, second.1, second.2).with_pivot(second.0, second.1, second.2)
            == v.with_pivot(second.0, second.1, second.2),
{
}

/// The policies are independent: setting a chroot, a pivot, a death signal,
/// `SIGCHLD` delivery or namespaces changes that policy alone.
pub proof fn lemma_policies_independent(v: CommandView, dir: Seq<char>, sig: Option<i32>, a: Seq<Namespace>)
    ensures
        v.with_chroot(dir).namespaces == v.namespaces && v.with_chroot(dir).death_sig == v.death_sig
            && v.with_chroot(dir).sigchld == v.sigchld && v.with_chroot(dir).pivot_root
            == v.pivot_root,
        v.with_death_signal(sig).namespaces == v.namespaces && v.with_death_signal(sig).sigchld
            == v.sigchld && v.with_death_signal(sig).chroot_dir == v.chroot_dir
            && v.with_death_signal(sig).pivot_root == v.pivot_root,
        v.with_namespaces(a).death_sig == v.death_sig && v.with_namespaces(a).sigchld == v.sigchld
            && v.with_namespaces(a).chroot_dir == v.chroot_dir && v.with_namespaces(a).pivot_root
            == v.pivot_root,
        v.with_child_signal().namespaces == v.namespaces && v.with_child_signal().death_sig
            == v.death_sig && v.with_child_signal().chroot_dir == v.chroot_dir
            && v.with_child_signal().pivot_root == v.pivot_root,
{
}

} // verus!
