//! A plain-value model of an OCI runtime configuration, and verified readers
//! over it.
//!
//! The configuration a runtime loads from a bundle is parsed and canonicalized
//! outside this library; what the logic here reads from it — the process
//! environment and arguments, the mounts, the annotations — is carried in
//! [`RuntimeSpec`] as plain values, so the readers can be verified. The
//! caller converts the parsed document into this model.

use vstd::prelude::*;
use vstd::string::StringExecFns;

verus! {

/// The process section: environment and argument lists, each optional.
pub struct Process {
    pub env: Option<Vec<String>>,
    pub args: Option<Vec<String>>,
}

/// One mount entry: its type and its destination path, each optional (a
/// destination that is not valid text is carried as `None`).
pub struct Mount {
    pub typ: Option<String>,
    pub destination: Option<String>,
}

/// One annotation: a key and its value.
pub struct Annotation {
    pub key: String,
    pub value: String,
}

/// What this library reads from an OCI runtime configuration.
pub struct RuntimeSpec {
    pub process: Option<Process>,
    pub mounts: Option<Vec<Mount>>,
    pub annotations: Option<Vec<Annotation>>,
}

/// The environment list the model holds: the process's `env` if present,
/// otherwise empty.
pub open spec fn env_of(p: Process) -> Seq<String> {
    match p.env {
        Option::Some(e) => e@,
        Option::None => Seq::<String>::empty(),
    }
}

/// The argument list the model holds: the process's `args` if present,
/// otherwise empty.
pub open spec fn args_of(p: Process) -> Seq<String> {
    match p.args {
        Option::Some(a) => a@,
        Option::None => Seq::<String>::empty(),
    }
}

/// Copy a list of strings element for element.
fn clone_strings(v: &Vec<String>) -> (r: Vec<String>)
    ensures
        r@ == v@,
{
    let mut r: Vec<String> = Vec::new();
    let mut i: usize = 0;
    while i < v.len()
        invariant
            i <= v.len(),
            r@ == v@.take(i as int),
        decreases v.len() - i,
    {
        r.push(v[i].clone());
        i = i + 1;
        proof {
            assert(r@ =~= v@.take(i as int));
        }
    }
    proof {
        assert(v@.take(v.len() as int) =~= v@);
    }
    r
}

/// The environment strings of the configured process, or an empty list where
/// the process declares none.
pub fn env_to_wasi(rspec: &RuntimeSpec) -> (r: Vec<String>)
    requires
        rspec.process is Some,
    ensures
        r@ == env_of(rspec.process->Some_0),
{
    match &rspec.process {
        Option::Some(p) => match &p.env {
            Option::Some(e) => clone_strings(e),
            Option::None => Vec::new(),
        },
        Option::None => Vec::new(),
    }
}

/// The argument strings of the configured process, or an empty list where
/// the process declares none.
pub fn arg_to_wasi(rspec: &RuntimeSpec) -> (r: Vec<String>)
    requires
        rspec.process is Some,
    ensures
        r@ == args_of(rspec.process->Some_0),
{
    match &rspec.process {
        Option::Some(p) => match &p.args {
            Option::Some(a) => clone_strings(a),
            Option::None => Vec::new(),
        },
        Option::None => Vec::new(),
    }
}

/// Whether a mount entry is one the wasm runtime surfaces: its type is
/// declared and is `bind` or `tmpfs`, and its destination is valid text.
pub open spec fn mount_selected(m: Mount) -> bool {
    &&& m.typ is Some
    &&& (m.typ->Some_0@ == "bind"@ || m.typ->Some_0@ == "tmpfs"@)
    &&& m.destination is Some
}

/// The destinations of the selected mounts, in order.
pub open spec fn wasm_mounts_of(ms: Seq<Mount>) -> Seq<String>
    decreases ms.len(),
{
    if ms.len() == 0 {
        Seq::<String>::empty()
    } else if mount_selected(ms.last()) {
        wasm_mounts_of(ms.drop_last()).push(ms.last().destination->Some_0)
    } else {
        wasm_mounts_of(ms.drop_last())
    }
}

/// String equality by contents.
fn string_eq(a: &String, b: &String) -> (r: bool)
    ensures
        r == (a@ == b@),
{
    a.eq(b)
}

/// Whether a mount entry is selected; mirrors [`mount_selected`].
fn mount_is_selected(m: &Mount) -> (r: bool)
    ensures
        r == mount_selected(*m),
{
    let bind_type: String = "bind".to_owned();
    let tmpfs_type: String = "tmpfs".to_owned();
    match &m.typ {
        Option::Some(t) => {
            if string_eq(t, &bind_type) || string_eq(t, &tmpfs_type) {
                match &m.destination {
                    Option::Some(_) => true,
                    Option::None => false,
                }
            } else {
                false
            }
        },
        Option::None => false,
    }
}

/// The destination paths of the bind and tmpfs mounts of the configuration,
/// in the order they are declared; empty where no mounts are declared.
pub fn get_wasm_mounts(rspec: &RuntimeSpec) -> (r: Vec<String>)
    ensures
        r@ == match rspec.mounts {
            Option::Some(ms) => wasm_mounts_of(ms@),
            Option::None => Seq::<String>::empty(),
        },
{
    match &rspec.mounts {
        Option::Some(ms) => {
            let mut r: Vec<String> = Vec::new();
            let mut i: usize = 0;
            while i < ms.len()
                invariant
                    i <= ms.len(),
                    r@ == wasm_mounts_of(ms@.take(i as int)),
                decreases ms.len() - i,
            {
                proof {
                    assert(ms@.take(i + 1).drop_last() =~= ms@.take(i as int));
                    assert(ms@.take(i + 1).last() == ms@[i as int]);
                }
                if mount_is_selected(&ms[i]) {
                    match &ms[i].destination {
                        Option::Some(d) => r.push(d.clone()),
                        Option::None => {
                            // A selected mount always carries a destination.
                            proof {
                                assert(false);
                            }
                        },
                    }
                }
                i = i + 1;
            }
            proof {
                assert(ms@.take(ms.len() as int) =~= ms@);
            }
            r
        },
        Option::None => Vec::new(),
    }
}

/// The value of the first annotation with the given key, or `None` where no
/// annotation has it.
pub open spec fn annotation_lookup(anns: Seq<Annotation>, key: Seq<char>) -> Option<Seq<char>>
    decreases anns.len(),
{
    if anns.len() == 0 {
        Option::None
    } else if anns.first().key@ == key {
        Option::Some(anns.first().value@)
    } else {
        annotation_lookup(anns.drop_first(), key)
    }
}

/// The string `get_wasm_annotations` owes for a configuration and a key: the
/// value stored under the key, or empty where the configuration has no
/// annotations or none with that key.
pub open spec fn annotation_value_of(rspec: RuntimeSpec, key: Seq<char>) -> Seq<char> {
    match rspec.annotations {
        Option::Some(anns) => match annotation_lookup(anns@, key) {
            Option::Some(v) => v,
            Option::None => Seq::<char>::empty(),
        },
        Option::None => Seq::<char>::empty(),
    }
}

/// The value of the annotation stored under `annotation_key`, or an empty
/// string where the configuration has no annotations or none with that key.
pub fn get_wasm_annotations(rspec: &RuntimeSpec, annotation_key: &str) -> (r: String)
    ensures
        r@ == annotation_value_of(*rspec, annotation_key@),
{
    let key: String = annotation_key.to_owned();
    match &rspec.annotations {
        Option::Some(anns) => {
            let mut i: usize = 0;
            proof {
                assert(anns@.skip(0) =~= anns@);
            }
            while i < anns.len()
                invariant
                    i <= anns.len(),
                    rspec.annotations == Option::Some(*anns),
                    key@ == annotation_key@,
                    annotation_lookup(anns@, annotation_key@) == annotation_lookup(
                        anns@.skip(i as int),
                        annotation_key@,
                    ),
                decreases anns.len() - i,
            {
                proof {
                    assert(anns@.skip(i as int).first() == anns@[i as int]);
                    assert(anns@.skip(i as int).drop_first() =~= anns@.skip(i + 1));
                }
                if string_eq(&anns[i].key, &key) {
                    proof {
                        assert(annotation_lookup(anns@.skip(i as int), annotation_key@)
                            == Option::Some(anns@[i as int].value@));
                    }
                    return anns[i].value.clone();
                }
                i = i + 1;
            }
            proof {
                assert(anns@.skip(anns.len() as int) =~= Seq::<Annotation>::empty());
            }
            String::new()
        },
        Option::None => String::new(),
    }
}

/// The on-disk control-socket path that belongs to a bundle path: the bundle
/// path with `.sock` appended.
pub fn socket_path(bundle_path: &str) -> (r: String)
    ensures
        r@ == bundle_path@ + ".sock"@,
{
    let base: String = bundle_path.to_owned();
    base.concat(".sock")
}

} // verus!
