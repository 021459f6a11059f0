use vstd::prelude::*;
use vstd::string::StringSliceAdditionalSpecFns;

use crate::namespace::{all_flags, flag_of, flags_of, lemma_add_flag, lemma_bits_are_flags, namespaces_in, Namespace};
use crate::path::{is_absolute, is_absolute_path, is_component_prefix, is_path_prefix};

verus! {

/// The number of `SIGKILL`, the signal a child gets by default when its parent dies.
pub open spec fn kill_signal() -> i32 {
    9
}

/// Relies on nix::sys::signal::Signal::SIGKILL, whose number is libc's SIGKILL.
#[verifier::external_body]
fn sigkill() -> (r: i32)
    ensures
        r == kill_signal(),
{
    nix::sys::signal::Signal::SIGKILL as i32
}

/// Why a root transition was not configured.
#[derive(Clone, Copy, Debug, PartialEq, Eq, Structural)]
pub enum RootError {
    /// The chroot directory is not an absolute path.
    RelativeChrootDir,
    /// The new root of a pivot is not an absolute path.
    RelativeNewRoot,
    /// The place for the old root of a pivot is not an absolute path.
    RelativePutOld,
    /// The new root is not a component-wise prefix of the place for the old root.
    NotPrefix,
}

/// A validated `pivot_root` request: both paths absolute, `new_root` a
/// component-wise prefix of `put_old`.
#[derive(Debug)]
pub struct PivotRoot {
    /// The directory that becomes the root.
    pub new_root: String,
    /// Where the old root is moved to; it lies under `new_root`.
    pub put_old: String,
    /// Whether the old root is unmounted after the move.
    pub unmount: bool,
}

/// What a launch configuration holds, as mathematical values.
pub struct CommandView {
    /// The namespaces the child unshares.
    pub namespaces: Set<Namespace>,
    /// The signal sent to the child when its parent dies, if any.
    pub death_sig: Option<i32>,
    /// Whether `SIGCHLD` is delivered to the parent for this child.
    pub sigchld: bool,
    /// The directory the child is chrooted into, after any pivot.
    pub chroot_dir: Option<Seq<char>>,
    /// The pivot: new root, place for the old root, and whether to unmount it.
    pub pivot_root: Option<(Seq<char>, Seq<char>, bool)>,
}

impl CommandView {
    /// A fresh configuration: no namespaces, no root transition, killed when
    /// the parent dies, no `SIGCHLD`.
    pub open spec fn initial() -> CommandView {
        CommandView {
            namespaces: Set::empty(),
            death_sig: Some(kill_signal()),
            sigchld: false,
            chroot_dir: None,
            pivot_root: None,
        }
    }

    pub open spec fn with_namespaces(self, nss: Seq<Namespace>) -> CommandView {
        CommandView { namespaces: self.namespaces.union(nss.to_set()), ..self }
    }

    pub open spec fn with_death_signal(self, sig: Option<i32>) -> CommandView {
        CommandView { death_sig: sig, ..self }
    }

    pub open spec fn with_child_signal(self) -> CommandView {
        CommandView { sigchld: true, ..self }
    }

    pub open spec fn with_chroot(self, dir: Seq<char>) -> CommandView {
        CommandView { chroot_dir: Some(dir), ..self }
    }

    pub open spec fn with_pivot(self, new_root: Seq<char>, put_old: Seq<char>, unmount: bool) -> CommandView {
        CommandView { pivot_root: Some((new_root, put_old, unmount)), ..self }
    }
}

/// The outcome of configuring a chroot directory with the given bytes.
pub open spec fn chroot_outcome(dir: Seq<u8>) -> Result<(), RootError> {
    if is_absolute(dir) {
        Ok(())
    } else {
        Err(RootError::RelativeChrootDir)
    }
}

/// The outcome of configuring a pivot with the given bytes.
pub open spec fn pivot_outcome(new_root: Seq<u8>, put_old: Seq<u8>) -> Result<(), RootError> {
    if !is_absolute(new_root) {
        Err(RootError::RelativeNewRoot)
    } else if !is_absolute(put_old) {
        Err(RootError::RelativePutOld)
    } else if !is_component_prefix(new_root, put_old) {
        Err(RootError::NotPrefix)
    } else {
        Ok(())
    }
}

/// The launch configuration of a child process.
pub struct Command {
    namespaces: i32,
    death_sig: Option<i32>,
    sigchld: bool,
    chroot_dir: Option<String>,
    pivot_root: Option<PivotRoot>,
}

impl View for Command {
    type V = CommandView;

    closed spec fn view(&self) -> CommandView {
        CommandView {
            namespaces: namespaces_in(self.namespaces),
            death_sig: self.death_sig,
            sigchld: self.sigchld,
            chroot_dir: match self.chroot_dir {
                Some(d) => Some(d@),
                None => None,
            },
            pivot_root: match self.pivot_root {
                Some(p) => Some((p.new_root@, p.put_old@, p.unmount)),
                None => None,
            },
        }
    }
}

impl Command {
    /// The namespace bits hold only the six namespace flags.
    pub closed spec fn wf(&self) -> bool {
        self.namespaces & !all_flags() == 0
    }

    /// A configuration with every policy at its default.
    pub fn new() -> (r: Command)
        ensures
            r.wf(),
            r@ == CommandView::initial(),
    {
        let r = Command {
            namespaces: 0,
            death_sig: Some(sigkill()),
            sigchld: false,
            chroot_dir: None,
            pivot_root: None,
        };
        assert(0i32 & !0x7C020000i32 == 0) by (bit_vector);
        assert(namespaces_in(0) =~= Set::empty()) by {
            assert forall|ns: Namespace| !namespaces_in(0).contains(ns) by {
                let f = flag_of(ns);
                assert(0i32 & f == 0) by (bit_vector);
            }
        }
        r
    }

    /// Lets the child outlive its parent: no signal is sent to it when the
    /// parent dies.
    pub fn allow_daemonize(&mut self)
        requires
            old(self).wf(),
        ensures
            final(self).wf(),
            final(self)@ == old(self)@.with_death_signal(None),
    {
        self.death_sig = None;
    }

    /// Sets the signal sent to the child when its parent dies. This reaches
    /// only the immediate child; its descendants need a PID namespace and a
    /// subreaper.
    pub fn set_parent_death_signal(&mut self, sig: i32)
        requires
            old(self).wf(),
        ensures
            final(self).wf(),
            final(self)@ == old(self)@.with_death_signal(Some(sig)),
    {
        self.death_sig = Some(sig);
    }

    /// Sets the directory the child is chrooted into, replacing an earlier
    /// one. With a pivot configured too, the pivot happens first and this
    /// path is read in the new root. Only an absolute path is accepted.
    pub fn chroot_dir(&mut self, dir: &str) -> (r: Result<(), RootError>)
        requires
            old(self).wf(),
        ensures
            final(self).wf(),
            r == chroot_outcome(dir.spec_bytes()),
            final(self)@ == (if r is Ok {
                old(self)@.with_chroot(dir@)
            } else {
                old(self)@
            }),
    {
        if !is_absolute_path(dir) {
            return Err(RootError::RelativeChrootDir);
        }
        self.chroot_dir = Some(dir.to_owned());
        Ok(())
    }

    /// Moves the root filesystem to `new_root` and the old root to `put_old`,
    /// unmounting the old root afterwards when `unmount` is set; replaces an
    /// earlier pivot. Both paths must be absolute and `new_root` a
    /// component-wise prefix of `put_old`.
    pub fn pivot_root(&mut self, new_root: &str, put_old: &str, unmount: bool) -> (r: Result<(), RootError>)
        requires
            old(self).wf(),
        ensures
            final(self).wf(),
            r == pivot_outcome(new_root.spec_bytes(), put_old.spec_bytes()),
            final(self)@ == (if r is Ok {
                old(self)@.with_pivot(new_root@, put_old@, unmount)
            } else {
                old(self)@
            }),
    {
        if !is_absolute_path(new_root) {
            return Err(RootError::RelativeNewRoot);
        }
        if !is_absolute_path(put_old) {
            return Err(RootError::RelativePutOld);
        }
        if !is_path_prefix(new_root, put_old) {
            return Err(RootError::NotPrefix);
        }
        self.pivot_root = Some(PivotRoot { new_root: new_root.to_owned(), put_old: put_old.to_owned(), unmount });
        Ok(())
    }

    /// Adds the given namespaces to those the child unshares. Nothing is
    /// ever removed; repeats and an empty list change nothing.
    pub fn unshare(&mut self, namespaces: &[Namespace])
        requires
            old(self).wf(),
        ensures
            final(self).wf(),
            final(self)@ == old(self)@.with_namespaces(namespaces@),
    {
        let mut i: usize = 0;
        assert(namespaces@.subrange(0, 0).to_set() =~= Set::empty());
        assert(old(self)@.namespaces.union(Set::empty()) =~= old(self)@.namespaces);
        while i < namespaces.len()
            invariant
                self.wf(),
                i <= namespaces@.len(),
                self@ == old(self)@.with_namespaces(namespaces@.subrange(0, i as int)),
            decreases namespaces@.len() - i,
        {
            let ns = namespaces[i];
            let ghost before = self.namespaces;
            let f = ns.clone_flag();
            self.namespaces = self.namespaces | f;
            proof {
                lemma_add_flag(before, ns);
                let prev = namespaces@.subrange(0, i as int);
                let next = namespaces@.subrange(0, i + 1);
                assert(next =~= prev.push(ns));
                assert forall|m: Namespace| next.to_set().contains(m) <==> prev.to_set().insert(ns).contains(m) by {
                    if prev.contains(m) {
                        let k = choose|k: int| 0 <= k < prev.len() && prev[k] == m;
                        assert(next[k] == m);
                    }
                    if m == ns {
                        assert(next[i as int] == m);
                    }
                    if next.contains(m) && m != ns {
                        let k = choose|k: int| 0 <= k < next.len() && next[k] == m;
                        assert(prev[k] == m);
                    }
                }
                assert(next.to_set() =~= prev.to_set().insert(ns));
                assert(old(self)@.namespaces.union(next.to_set()) =~= old(self)@.namespaces.union(prev.to_set()).insert(ns));
            }
            i = i + 1;
        }
        assert(namespaces@.subrange(0, i as int) =~= namespaces@);
    }

    /// Enables `SIGCHLD` delivery to the parent for this child. It is off by
    /// default, unlike in most process APIs, and cannot be switched off again.
    pub fn enable_child_signal(&mut self)
        requires
            old(self).wf(),
        ensures
            final(self).wf(),
            final(self)@ == old(self)@.with_child_signal(),
    {
        self.sigchld = true;
    }

    /// The `clone` flags of the namespaces the child unshares, unioned together.
    pub fn clone_flags(&self) -> (r: i32)
        requires
            self.wf(),
        ensures
            r == flags_of(self@.namespaces),
    {
        proof {
            lemma_bits_are_flags(self.namespaces);
        }
        self.namespaces
    }

    /// The signal sent to the child when its parent dies, if any.
    pub fn parent_death_signal(&self) -> (r: Option<i32>)
        ensures
            r == self@.death_sig,
    {
        self.death_sig
    }

    /// Whether `SIGCHLD` is delivered for this child.
    pub fn child_signal_enabled(&self) -> (r: bool)
        ensures
            r == self@.sigchld,
    {
        self.sigchld
    }

    /// The chroot directory, if one is configured.
    pub fn chroot_path(&self) -> (r: Option<&String>)
        ensures
            match r {
                Some(d) => self@.chroot_dir == Some(d@),
                None => self@.chroot_dir is None,
            },
    {
        match &self.chroot_dir {
            Some(d) => Some(d),
            None => None,
        }
    }

    /// The pivot, if one is configured.
    pub fn pivot_plan(&self) -> (r: Option<&PivotRoot>)
        ensures
            match r {
                Some(p) => self@.pivot_root == Some((p.new_root@, p.put_old@, p.unmount)),
                None => self@.pivot_root is None,
            },
    {
        match &self.pivot_root {
            Some(p) => Some(p),
            None => None,
        }
    }
}

impl Default for Command {
    fn default() -> (r: Command)
        ensures
            r.wf(),
            r@ == CommandView::initial(),
    {
        Command::new()
    }
}

} // verus!
