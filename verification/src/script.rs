//! User scripts: named procedures a game registers and invokes against
//! its scene.

use vstd::prelude::*;

use crate::types::str_eq;

verus! {

/// A user-implemented script over a scene of type `S`.
pub trait Script<S> {
    fn init() -> Self where Self: Sized;

    /// Runs the script against the scene; returns its exit code.
    fn run(&mut self, scene: &mut S) -> u32;
}

/// Errors of the script layer.
#[derive(Clone, Copy, PartialEq, Eq, Structural, Debug)]
pub enum ScriptError {
    ScriptNotFound,
}

impl ScriptError {
    pub fn message(&self) -> &'static str {
        match self {
            ScriptError::ScriptNotFound => {
                "Failed to invoke the script - no script found with the specified id."
            },
        }
    }
}

/// The registered scripts: one script per id, id `i` naming script `i`.
/// `T` is the game's script type; a game with several kinds of script
/// wraps them in one enum implementing `Script`.
#[verifier::reject_recursive_types(S)]
pub struct ScriptController<S, T> {
    pub script_ids: Vec<String>,
    pub scripts: Vec<T>,
    pub scene_marker: core::marker::PhantomData<S>,
}

impl<S, T: Script<S>> ScriptController<S, T> {
    /// One script per id: ids are distinct, and each names a script.
    pub open spec fn wf(self) -> bool {
        &&& self.scripts@.len() == self.script_ids@.len()
        &&& forall|i: int, j: int|
            0 <= i < j < self.script_ids@.len() ==> (#[trigger] self.script_ids@[i])@ != (
            #[trigger] self.script_ids@[j])@
    }

    /// Whether a script is registered under the id.
    pub open spec fn has_script(self, id: Seq<char>) -> bool {
        exists|i: int| 0 <= i < self.script_ids@.len() && (#[trigger] self.script_ids@[i])@ == id
    }

    pub fn new() -> (r: ScriptController<S, T>)
        ensures
            r.script_ids@.len() == 0,
            r.scripts@.len() == 0,
            r.wf(),
    {
        ScriptController {
            script_ids: Vec::new(),
            scripts: Vec::new(),
            scene_marker: core::marker::PhantomData,
        }
    }

    /// Registers a script under an id; a script already registered
    /// under that id is replaced.
    pub fn register_script(&mut self, script_id: String, script: T)
        requires
            old(self).wf(),
        ensures
            final(self).wf(),
            final(self).has_script(script_id@),
            final(self).script_ids@.len() <= old(self).script_ids@.len() + 1,
            // The entry stored under the id is the argument: a previous
            // registration under the same id is replaced.
            exists|i: int|
                0 <= i < final(self).script_ids@.len() && (#[trigger] final(self).script_ids@[i])@
                    == script_id@ && final(self).scripts@[i] == script,
            // Every other id stays registered.
            forall|id: Seq<char>|
                old(self).has_script(id) && id != script_id@ ==> final(self).has_script(id),
    {
        let n = self.script_ids.len();
        let mut i: usize = 0;
        while i < n
            invariant
                i <= n,
                n == self.script_ids@.len(),
                old(self).wf(),
                self == old(self),
                forall|k: int| 0 <= k < i ==> (#[trigger] self.script_ids@[k])@ != script_id@,
            decreases n - i,
        {
            if str_eq(self.script_ids[i].as_str(), script_id.as_str()) {
                let ghost pre = self.script_ids@;
                let ghost gid = script_id@;
                self.script_ids.set(i, script_id);
                self.scripts.set(i, script);
                proof {
                    let post = self.script_ids@;
                    assert(post[i as int]@ == gid);
                    assert(self.scripts@[i as int] == script);
                    assert forall|a: int, b: int|
                        0 <= a < b < post.len() implies (#[trigger] post[a])@ != (
                    #[trigger] post[b])@ by {
                        if a != i && b != i {
                            assert(pre[a]@ != pre[b]@);
                        } else if b == i as int {
                            assert(pre[a]@ != gid);
                        } else {
                            assert(pre[i as int]@ == gid);
                            assert(pre[i as int]@ != pre[b]@);
                        }
                    }
                    assert forall|id: Seq<char>|
                        old(self).has_script(id) && id != gid implies self.has_script(id) by {
                        let k = choose|k: int|
                            0 <= k < pre.len() && (#[trigger] pre[k])@ == id;
                        assert(post[k]@ == id);
                    }
                }
                return ;
            }
            i = i + 1;
        }
        let ghost pre = self.script_ids@;
        let ghost gid = script_id@;
        self.script_ids.push(script_id);
        self.scripts.push(script);
        proof {
            let post = self.script_ids@;
            assert(post[n as int]@ == gid);
            assert(self.scripts@[n as int] == script);
            assert forall|a: int, b: int|
                0 <= a < b < post.len() implies (#[trigger] post[a])@ != (#[trigger] post[b])@ by {
                if b == n as int {
                    assert(pre[a]@ != gid);
                } else {
                    assert(pre[a]@ != pre[b]@);
                }
            }
            assert forall|id: Seq<char>|
                old(self).has_script(id) && id != gid implies self.has_script(id) by {
                let k = choose|k: int| 0 <= k < pre.len() && (#[trigger] pre[k])@ == id;
                assert(post[k]@ == id);
            }
        }
    }

    /// Runs the script registered under the id against the scene and
    /// returns its exit code, or the not-found error when no script
    /// carries the id.
    pub fn invoke(&mut self, script_id: &str, scene: &mut S) -> (r: Result<u32, ScriptError>)
        requires
            old(self).wf(),
        ensures
            final(self).wf(),
            final(self).script_ids@ == old(self).script_ids@,
            final(self).scripts@.len() == old(self).scripts@.len(),
            match r {
                Result::Ok(_) => old(self).has_script(script_id@),
                Result::Err(e) => {
                    &&& e == ScriptError::ScriptNotFound
                    &&& !old(self).has_script(script_id@)
                },
            },
    {
        let n = self.script_ids.len();
        let mut i: usize = 0;
        while i < n
            invariant
                i <= n,
                n == self.script_ids@.len(),
                old(self).wf(),
                self == old(self),
                forall|k: int| 0 <= k < i ==> (#[trigger] self.script_ids@[k])@ != script_id@,
            decreases n - i,
        {
            if str_eq(self.script_ids[i].as_str(), script_id) {
                let ghost pre_scripts = self.scripts@;
                let mut script = self.scripts.remove(i);
                let code = script.run(scene);
                self.scripts.insert(i, script);
                proof {
                    assert(self.scripts@.len() == pre_scripts.len());
                }
                return Result::Ok(code);
            }
            i = i + 1;
        }
        Result::Err(ScriptError::ScriptNotFound)
    }
}

} // verus!
