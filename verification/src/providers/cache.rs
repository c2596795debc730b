//! Provider-neutral runtime and model cache layout: where a provider's
//! downloaded runtime builds and model weights live, which environment
//! variables override those roots, and what counts as a complete download.
use vstd::prelude::*;

use crate::config::{join_path, path_join};
use crate::error::RuntimeError;
use crate::text::{char_is_ascii_alnum, chars_of, concat, is_ascii_alnum, push_char};

verus! {

/// Progress of an in-flight download.
#[derive(Debug, Clone, Copy)]
pub struct DownloadProgress {
    pub downloaded_bytes: u64,
    pub total_bytes: Option<u64>,
}

/// The upper-case ASCII form of a letter; any other character unchanged.
pub open spec fn ascii_upper(c: char) -> char {
    if 'a' <= c && c <= 'z' {
        ((c as int) - 32) as char
    } else {
        c
    }
}

fn to_ascii_upper(c: char) -> (r: char)
    ensures
        r == ascii_upper(c),
{
    if 'a' <= c && c <= 'z' {
        let code = (c as u32) - 32;
        assert(code == (c as int) - 32);
        ((code as u8) as char)
    } else {
        c
    }
}

/// One character of an environment-variable prefix: letters and digits
/// upper-cased, everything else `_`.
pub open spec fn env_prefix_char(c: char) -> char {
    if is_ascii_alnum(c) {
        ascii_upper(c)
    } else {
        '_'
    }
}

/// `faster-whisper` → `FASTER_WHISPER`: the provider-id part of the
/// `STT_<PREFIX>_CACHE_DIR` / `STT_<PREFIX>_MODEL_DIR` overrides.
pub fn provider_env_prefix(provider_id: &str) -> (r: String)
    ensures
        r@ == provider_id@.map_values(|c: char| env_prefix_char(c)),
{
    let v = chars_of(provider_id);
    let mut r = String::new();
    let mut i: usize = 0;
    while i < v.len()
        invariant
            v@ == provider_id@,
            i <= v@.len(),
            r@ == v@.take(i as int).map_values(|c: char| env_prefix_char(c)),
        decreases v.len() - i,
    {
        let c = v[i];
        let mapped = if char_is_ascii_alnum(c) {
            to_ascii_upper(c)
        } else {
            '_'
        };
        push_char(&mut r, mapped);
        assert(v@.take(i + 1).map_values(|c: char| env_prefix_char(c)) =~= v@.take(
            i as int,
        ).map_values(|c: char| env_prefix_char(c)).push(env_prefix_char(c)));
        i += 1;
    }
    assert(v@.take(v@.len() as int) =~= v@);
    r
}

/// `STT_<PREFIX>_CACHE_DIR`: overrides where `provider_id`'s runtime
/// builds are cached.
pub fn runtime_cache_env_var(provider_id: &str) -> (r: String)
    ensures
        r@ == "STT_"@ + provider_id@.map_values(|c: char| env_prefix_char(c)) + "_CACHE_DIR"@,
{
    let p = provider_env_prefix(provider_id);
    let mut r = concat("STT_", p.as_str());
    r.append("_CACHE_DIR");
    r
}

/// `STT_<PREFIX>_MODEL_DIR`: overrides where `provider_id`'s model
/// weights are cached.
pub fn model_cache_env_var(provider_id: &str) -> (r: String)
    ensures
        r@ == "STT_"@ + provider_id@.map_values(|c: char| env_prefix_char(c)) + "_MODEL_DIR"@,
{
    let p = provider_env_prefix(provider_id);
    let mut r = concat("STT_", p.as_str());
    r.append("_MODEL_DIR");
    r
}

/// `<root>/<provider>/<variant>`: one variant's cached runtime build.
pub fn variant_dir(root: &str, provider_id: &str, variant: &str) -> (r: String)
    ensures
        r@ == path_join(path_join(root@, provider_id@), variant@),
{
    let p = join_path(root, provider_id);
    join_path(p.as_str(), variant)
}

/// `<root>/<provider>`: the directory holding every model of a provider,
/// each as its own subdirectory.
pub fn provider_model_root(root: &str, provider_id: &str) -> (r: String)
    ensures
        r@ == path_join(root@, provider_id@),
{
    join_path(root, provider_id)
}

/// `<root>/<provider>/<model>`: one model's weights.
pub fn model_dir(root: &str, provider_id: &str, model_id: &str) -> (r: String)
    ensures
        r@ == path_join(path_join(root@, provider_id@), model_id@),
{
    let p = join_path(root, provider_id);
    join_path(p.as_str(), model_id)
}

/// What a metadata lookup of a path found.
#[derive(Debug, Clone)]
pub enum FileProbe {
    /// Something exists there: whether it is a regular file, and its size.
    Present { is_file: bool, len: u64 },
    NotFound,
    /// The lookup failed for another reason (rendered I/O error).
    Failed(String),
}

/// Sum of the sizes of the leading probes that found non-empty files.
pub open spec fn present_prefix_total(probes: Seq<FileProbe>) -> nat
    decreases probes.len(),
{
    if probes.len() == 0 {
        0
    } else {
        present_prefix_total(probes.drop_last()) + match probes.last() {
            FileProbe::Present { is_file: _, len } => len as nat,
            _ => 0,
        }
    }
}

/// Whether a probe found a non-empty regular file.
pub open spec fn is_complete_file(p: FileProbe) -> bool {
    match p {
        FileProbe::Present { is_file, len } => is_file && len > 0,
        _ => false,
    }
}

/// Index of the first probe that is not a complete file, if any.
pub open spec fn first_incomplete(probes: Seq<FileProbe>) -> Option<int> {
    if exists|i: int| 0 <= i < probes.len() && !is_complete_file(#[trigger] probes[i]) {
        Some(
            choose|i: int|
                0 <= i < probes.len() && !is_complete_file(#[trigger] probes[i]) && forall|j: int|
                    0 <= j < i ==> is_complete_file(#[trigger] probes[j]),
        )
    } else {
        None
    }
}

/// Result of checking that every required file is present: the first
/// failing lookup's error, `None` when a file is missing, empty or not a
/// regular file, otherwise the total size of all of them.
pub open spec fn files_present_spec(probes: Seq<FileProbe>) -> Result<Option<u64>, Seq<char>> {
    match first_incomplete(probes) {
        Some(i) => match probes[i] {
            FileProbe::Failed(m) => Err(m@),
            _ => Ok(None),
        },
        None => Ok(Some(present_prefix_total(probes) as u64)),
    }
}

pub open spec fn result_view(r: Result<Option<u64>, RuntimeError>) -> Result<Option<u64>, Seq<char>> {
    match r {
        Ok(o) => Ok(o),
        Err(RuntimeError::Io(m)) => Err(m@),
        Err(_) => Err(Seq::empty()),
    }
}

/// Checks the probes of every file a complete download must hold, in
/// order (see [`files_present_spec`]). Failed lookups surface as `Io`.
pub fn verify_files_present(probes: &Vec<FileProbe>) -> (r: Result<Option<u64>, RuntimeError>)
    requires
        present_prefix_total(probes@) <= u64::MAX,
    ensures
        result_view(r) == files_present_spec(probes@),
        r is Err ==> r->Err_0 is Io,
{
    let mut total: u64 = 0;
    let mut i: usize = 0;
    while i < probes.len()
        invariant
            i <= probes@.len(),
            present_prefix_total(probes@) <= u64::MAX,
            total == present_prefix_total(probes@.take(i as int)),
            forall|j: int| 0 <= j < i ==> is_complete_file(#[trigger] probes@[j]),
        decreases probes.len() - i,
    {
        proof {
            lemma_present_total_prefix(probes@, i as int + 1);
            let t = probes@.take(i + 1);
            assert(t.drop_last() =~= probes@.take(i as int));
            assert(t.last() == probes@[i as int]);
        }
        match &probes[i] {
            FileProbe::Present { is_file, len } => {
                if *is_file && *len > 0 {
                    total = total + *len;
                } else {
                    proof {
                        lemma_first_incomplete_is(probes@, i as int);
                    }
                    return Ok(None);
                }
            },
            FileProbe::NotFound => {
                proof {
                    lemma_first_incomplete_is(probes@, i as int);
                }
                return Ok(None);
            },
            FileProbe::Failed(m) => {
                proof {
                    lemma_first_incomplete_is(probes@, i as int);
                }
                return Err(RuntimeError::Io(m.clone()));
            },
        }
        i += 1;
    }
    assert(probes@.take(probes@.len() as int) =~= probes@);
    assert(first_incomplete(probes@) is None);
    Ok(Some(total))
}

proof fn lemma_present_total_prefix(probes: Seq<FileProbe>, i: int)
    requires
        0 <= i <= probes.len(),
    ensures
        present_prefix_total(probes.take(i)) <= present_prefix_total(probes),
    decreases probes.len() - i,
{
    if i < probes.len() {
        lemma_present_total_prefix(probes, i + 1);
        assert(probes.take(i + 1).drop_last() =~= probes.take(i));
    } else {
        assert(probes.take(i) =~= probes);
    }
}

proof fn lemma_first_incomplete_is(probes: Seq<FileProbe>, i: int)
    requires
        0 <= i < probes.len(),
        !is_complete_file(probes[i]),
        forall|j: int| 0 <= j < i ==> is_complete_file(#[trigger] probes[j]),
    ensures
        first_incomplete(probes) == Some(i),
{
    let k = choose|k: int|
        0 <= k < probes.len() && !is_complete_file(#[trigger] probes[k]) && forall|j: int|
            0 <= j < k ==> is_complete_file(#[trigger] probes[j]);
    if k < i {
        assert(is_complete_file(probes[k]));
    }
    if k > i {
        assert(is_complete_file(probes[i]));
    }
}

/// The location in effect: with an override, the override when it is
/// usable (and nothing otherwise, with no fallback); without one, the
/// first usable candidate. Each location comes with whether it is usable.
pub open spec fn spec_locate(
    override_loc: Option<(Seq<char>, bool)>,
    candidates: Seq<(Seq<char>, bool)>,
) -> Option<Seq<char>> {
    match override_loc {
        Some((d, usable)) => if usable {
            Some(d)
        } else {
            None
        },
        None => first_usable(candidates),
    }
}

pub open spec fn first_usable(candidates: Seq<(Seq<char>, bool)>) -> Option<Seq<char>>
    decreases candidates.len(),
{
    if candidates.len() == 0 {
        None
    } else if candidates[0].1 {
        Some(candidates[0].0)
    } else {
        first_usable(candidates.drop_first())
    }
}

pub open spec fn locations_view(c: Seq<(String, bool)>) -> Seq<(Seq<char>, bool)> {
    c.map_values(|x: (String, bool)| (x.0@, x.1))
}

pub open spec fn opt_location_view(o: Option<(String, bool)>) -> Option<(Seq<char>, bool)> {
    match o {
        Some(x) => Some((x.0@, x.1)),
        None => None,
    }
}

pub open spec fn str_opt(o: Option<String>) -> Option<Seq<char>> {
    match o {
        Some(s) => Some(s@),
        None => None,
    }
}

/// Picks the location in effect (see [`spec_locate`]).
pub fn locate(override_loc: Option<(String, bool)>, candidates: &Vec<(String, bool)>) -> (r: Option<
    String,
>)
    ensures
        str_opt(r) == spec_locate(opt_location_view(override_loc), locations_view(candidates@)),
{
    match override_loc {
        Some((d, usable)) => {
            if usable {
                Some(d)
            } else {
                None
            }
        },
        None => {
            let mut i: usize = 0;
            assert(locations_view(candidates@).skip(0) =~= locations_view(candidates@));
            while i < candidates.len()
                invariant
                    override_loc is None,
                    i <= candidates@.len(),
                    first_usable(locations_view(candidates@)) == first_usable(
                        locations_view(candidates@).skip(i as int),
                    ),
                decreases candidates.len() - i,
            {
                let ghost rest = locations_view(candidates@).skip(i as int);
                assert(rest[0] == (candidates@[i as int].0@, candidates@[i as int].1));
                if candidates[i].1 {
                    return Some(candidates[i].0.clone());
                }
                assert(rest.drop_first() =~= locations_view(candidates@).skip(i + 1));
                i += 1;
            }
            None
        },
    }
}

} // verus!
