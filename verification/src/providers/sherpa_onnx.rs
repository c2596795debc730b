//! Install/launch decisions for the managed sherpa-onnx runtime
//! (`sherpad`): a self-hosted binary, with models fetched from
//! sherpa-onnx's own upstream release archives.
use vstd::prelude::*;

use crate::config::{join_path, path_join};
use crate::error::RuntimeError;
use crate::launch::{LaunchBuilder, LaunchBuilderView};
use crate::manifest::{find, manifest_entry, manifest_has, ModelEntry, ModelFiles, ModelFilesView};
use crate::providers::cache::{
    files_present_spec, locate, locations_view, opt_location_view, present_prefix_total, result_view,
    spec_locate, str_opt, verify_files_present, FileProbe,
};
use crate::providers::faster_whisper::{exe_ext, os_name, RELEASE_REPO};
use crate::providers::Platform;
use crate::text::{concat, owned};

verus! {

/// Environment variable overriding where a locally built `sherpad` lives.
pub const RUNTIME_DIR_ENV_VAR: &'static str = "STT_SHERPA_ONNX_RUNTIME_DIR";

/// Environment variable overriding the runtime cache root.
pub const RUNTIME_CACHE_DIR_ENV_VAR: &'static str = "STT_SHERPA_ONNX_CACHE_DIR";

/// Environment variable overriding where model weights are cached.
pub const MODEL_CACHE_DIR_ENV_VAR: &'static str = "STT_SHERPA_ONNX_MODEL_DIR";

/// Environment variable overriding the release-asset base URL.
pub const RELEASE_BASE_URL_ENV_VAR: &'static str = "STT_SHERPA_ONNX_RELEASE_BASE_URL";

pub open spec fn spec_binary_name(p: Platform) -> Seq<char> {
    match p {
        Platform::Windows => "sherpad.exe"@,
        Platform::Unix => "sherpad"@,
    }
}

/// The `sherpad` executable's name on a platform.
pub fn binary_name(p: Platform) -> (r: &'static str)
    ensures
        r@ == spec_binary_name(p),
{
    match p {
        Platform::Windows => "sherpad.exe",
        Platform::Unix => "sherpad",
    }
}

/// Where a locally built `sherpad` may be: under the override directory
/// alone when it is set; otherwise `<exe dir>/runtimes/sherpa-onnx` and
/// `<cwd>/runtimes/sherpa-onnx/target/release`, each when known.
pub fn dev_binary_candidates(
    override_dir: Option<&str>,
    exe_dir: Option<&str>,
    cwd: Option<&str>,
    p: Platform,
) -> (r: (Option<String>, Vec<String>))
    ensures
        match override_dir {
            Some(d) => r.0 matches Some(o) && o@ == path_join(d@, spec_binary_name(p)) && r.1@.len()
                == 0,
            None => r.0 is None && r.1@.map_values(|s: String| s@) == (match exe_dir {
                Some(e) => seq![path_join(path_join(e@, "runtimes/sherpa-onnx"@), spec_binary_name(p))],
                None => Seq::<Seq<char>>::empty(),
            }) + (match cwd {
                Some(c) => seq![
                    path_join(path_join(c@, "runtimes/sherpa-onnx/target/release"@), spec_binary_name(p)),
                ],
                None => Seq::<Seq<char>>::empty(),
            }),
        },
{
    let name = binary_name(p);
    let mut v: Vec<String> = Vec::new();
    if let Some(d) = override_dir {
        return (Some(join_path(d, name)), v);
    }
    if let Some(e) = exe_dir {
        let base = join_path(e, "runtimes/sherpa-onnx");
        v.push(join_path(base.as_str(), name));
    }
    let ghost first = v@.map_values(|s: String| s@);
    if let Some(c) = cwd {
        let base = join_path(c, "runtimes/sherpa-onnx/target/release");
        v.push(join_path(base.as_str(), name));
        assert(v@.map_values(|s: String| s@) =~= first.push(
            path_join(path_join(c@, "runtimes/sherpa-onnx/target/release"@), spec_binary_name(p)),
        ));
    }
    assert(v@.map_values(|s: String| s@) =~= (match exe_dir {
        Some(e) => seq![path_join(path_join(e@, "runtimes/sherpa-onnx"@), spec_binary_name(p))],
        None => Seq::<Seq<char>>::empty(),
    }) + (match cwd {
        Some(c) => seq![
            path_join(path_join(c@, "runtimes/sherpa-onnx/target/release"@), spec_binary_name(p)),
        ],
        None => Seq::<Seq<char>>::empty(),
    }));
    (None, v)
}

/// The dev binary in effect: the override path when set (if it is a
/// file, nothing otherwise), else the first candidate that is a file.
pub fn locate_dev_binary(override_path: Option<(String, bool)>, candidates: &Vec<(String, bool)>) -> (r:
    Option<String>)
    ensures
        str_opt(r) == spec_locate(opt_location_view(override_path), locations_view(candidates@)),
{
    locate(override_path, candidates)
}

pub open spec fn spec_cached_variant_dir(cache_root: Seq<char>) -> Seq<char> {
    path_join(path_join(cache_root, "sherpa-onnx"@), "cpu"@)
}

/// `<cache root>/sherpa-onnx/cpu`: the only variant (`sherpad` links a
/// CPU-only runtime).
pub fn cached_variant_dir(cache_root: &str) -> (r: String)
    ensures
        r@ == spec_cached_variant_dir(cache_root@),
{
    let p = join_path(cache_root, "sherpa-onnx");
    join_path(p.as_str(), "cpu")
}

/// `<variant dir>/<binary name>`: a downloaded `sherpad`.
pub fn cached_binary_path(cache_root: &str, p: Platform) -> (r: String)
    ensures
        r@ == path_join(spec_cached_variant_dir(cache_root@), spec_binary_name(p)),
{
    let d = cached_variant_dir(cache_root);
    join_path(d.as_str(), binary_name(p))
}

/// `<model root>/sherpa-onnx`: every model's parent, which `sherpad`'s
/// registry scans at startup.
pub fn model_root_dir(model_root: &str) -> (r: String)
    ensures
        r@ == path_join(model_root@, "sherpa-onnx"@),
{
    join_path(model_root, "sherpa-onnx")
}

/// `<model root>/sherpa-onnx/<model id>`: one model's files.
pub fn cached_model_dir(model_root: &str, model_id: &str) -> (r: String)
    ensures
        r@ == path_join(path_join(model_root@, "sherpa-onnx"@), model_id@),
{
    let p = model_root_dir(model_root);
    join_path(p.as_str(), model_id)
}

/// The launch builder of a `sherpad` binary.
pub fn launch_builder(binary: String) -> (r: LaunchBuilder)
    ensures
        r@ == (LaunchBuilderView::Sherpad { binary: binary@ }),
{
    LaunchBuilder::Sherpad { binary }
}

/// Local-only install: the located dev binary, else the cached download
/// when it is a file, else nothing.
pub fn install_local(dev_binary: Option<String>, cached_is_file: bool, cache_root: &str, p: Platform) -> (r:
    Option<LaunchBuilder>)
    ensures
        match dev_binary {
            Some(b) => r matches Some(l) && l@ == (LaunchBuilderView::Sherpad { binary: b@ }),
            None => if cached_is_file {
                r matches Some(l) && l@ == (LaunchBuilderView::Sherpad {
                    binary: path_join(spec_cached_variant_dir(cache_root@), spec_binary_name(p)),
                })
            } else {
                r is None
            },
        },
{
    if let Some(b) = dev_binary {
        return Some(launch_builder(b));
    }
    if cached_is_file {
        Some(launch_builder(cached_binary_path(cache_root, p)))
    } else {
        None
    }
}

/// `https://github.com/<repo>/releases/download/v<version>`, unless the
/// environment overrides it.
pub fn release_base_url(override_url: Option<String>, version: &str) -> (r: String)
    ensures
        r@ == (match override_url {
            Some(u) => u@,
            None => "https://github.com/"@ + RELEASE_REPO@ + "/releases/download/v"@ + version@,
        }),
{
    crate::providers::faster_whisper::release_base_url(override_url, version)
}

/// Release-asset filename: `sherpad-<os>-cpu<ext>`.
pub fn asset_name(p: Platform) -> (r: String)
    ensures
        r@ == "sherpad-"@ + os_name(p) + "-cpu"@ + exe_ext(p),
{
    let (os, ext): (&str, &str) = match p {
        Platform::Windows => ("windows", ".exe"),
        Platform::Unix => ("linux", ""),
    };
    let mut r = concat("sherpad-", os);
    r.append("-cpu");
    r.append(ext);
    r
}

/// The error for a model id the manifest does not list.
pub open spec fn unknown_model_message(model_id: Seq<char>) -> Seq<char> {
    "unknown sherpa-onnx model id: "@ + model_id
}

fn unknown_model(model_id: &str) -> (r: RuntimeError)
    ensures
        r matches RuntimeError::DownloadFailed(m) && m@ == unknown_model_message(model_id@),
{
    RuntimeError::DownloadFailed(concat("unknown sherpa-onnx model id: ", model_id))
}

/// Where to fetch a model's archive and what it unpacks to.
#[derive(Debug)]
pub struct ArchivePlan {
    /// The upstream `.tar.bz2` URL.
    pub url: String,
    /// `<model id>.tar.bz2`: the file name it is saved under.
    pub archive_name: String,
    /// The top-level directory the archive extracts to.
    pub archive_root: String,
}

/// The download plan of `model_id`; `DownloadFailed` for an unknown id.
pub fn archive_plan(model_id: &str) -> (r: Result<ArchivePlan, RuntimeError>)
    ensures
        match r {
            Ok(plan) => manifest_has(model_id@) && plan.url@ == manifest_entry(model_id@).download_url
                && plan.archive_name@ == manifest_entry(model_id@).id + ".tar.bz2"@
                && plan.archive_root@ == manifest_entry(model_id@).archive_root,
            Err(e) => !manifest_has(model_id@) && (e matches RuntimeError::DownloadFailed(m) && m@
                == unknown_model_message(model_id@)),
        },
{
    match find(model_id) {
        Some(entry) => Ok(
            ArchivePlan {
                url: owned(entry.download_url),
                archive_name: concat(entry.id, ".tar.bz2"),
                archive_root: owned(entry.archive_root),
            },
        ),
        None => Err(unknown_model(model_id)),
    }
}

/// The error of an archive that failed to extract.
pub fn extraction_failed(model_id: &str, detail: &str) -> (r: RuntimeError)
    ensures
        r matches RuntimeError::DownloadFailed(m) && m@ == "extracting "@ + model_id@ + ": "@
            + detail@,
{
    let mut m = concat("extracting ", model_id);
    m.append(": ");
    m.append(detail);
    RuntimeError::DownloadFailed(m)
}

pub open spec fn spec_required_relative_paths(files: ModelFilesView) -> Seq<Seq<char>> {
    match files {
        ModelFilesView::SenseVoice { model, tokens } => seq![model, tokens],
        ModelFilesView::Whisper { encoder, decoder, tokens } => seq![encoder, decoder, tokens],
        ModelFilesView::Transducer { encoder, decoder, joiner, tokens } => seq![
            encoder,
            decoder,
            joiner,
            tokens,
        ],
    }
}

/// The files (relative to the model directory) that must all be present
/// for a model to count as downloaded.
pub fn required_relative_paths(entry: &ModelEntry) -> (r: Vec<&'static str>)
    ensures
        r@.map_values(|s: &'static str| s@) == spec_required_relative_paths(entry@.files),
{
    let mut v: Vec<&'static str> = Vec::new();
    match entry.files {
        ModelFiles::SenseVoice { model, tokens } => {
            v.push(model);
            v.push(tokens);
        },
        ModelFiles::Whisper { encoder, decoder, tokens } => {
            v.push(encoder);
            v.push(decoder);
            v.push(tokens);
        },
        ModelFiles::Transducer { encoder, decoder, joiner, tokens } => {
            v.push(encoder);
            v.push(decoder);
            v.push(joiner);
            v.push(tokens);
        },
    }
    assert(v@.map_values(|s: &'static str| s@) =~= spec_required_relative_paths(entry@.files));
    v
}

/// The full paths whose probes decide [`verify_cached_model`]:
/// `<model dir>/<file>` for each required file; `DownloadFailed` for an
/// unknown id.
pub fn required_paths(model_root: &str, model_id: &str) -> (r: Result<Vec<String>, RuntimeError>)
    ensures
        match r {
            Ok(paths) => manifest_has(model_id@) && paths@.len() == spec_required_relative_paths(
                manifest_entry(model_id@).files,
            ).len() && forall|i: int|
                0 <= i < paths@.len() ==> (#[trigger] paths@[i])@ == path_join(
                    path_join(path_join(model_root@, "sherpa-onnx"@), model_id@),
                    spec_required_relative_paths(manifest_entry(model_id@).files)[i],
                ),
            Err(e) => !manifest_has(model_id@) && (e matches RuntimeError::DownloadFailed(m) && m@
                == unknown_model_message(model_id@)),
        },
{
    let entry = match find(model_id) {
        Some(e) => e,
        None => return Err(unknown_model(model_id)),
    };
    let dir = cached_model_dir(model_root, model_id);
    let rel = required_relative_paths(&entry);
    let mut out: Vec<String> = Vec::new();
    let mut i: usize = 0;
    while i < rel.len()
        invariant
            i <= rel@.len(),
            out@.len() == i,
            rel@.map_values(|s: &'static str| s@) == spec_required_relative_paths(entry@.files),
            forall|k: int|
                0 <= k < i ==> (#[trigger] out@[k])@ == path_join(dir@, rel@[k]@),
        decreases rel.len() - i,
    {
        out.push(join_path(dir.as_str(), rel[i]));
        i += 1;
    }
    proof {
        assert forall|k: int| 0 <= k < out@.len() implies (#[trigger] out@[k])@ == path_join(
            path_join(path_join(model_root@, "sherpa-onnx"@), model_id@),
            spec_required_relative_paths(manifest_entry(model_id@).files)[k],
        ) by {
            assert(rel@.map_values(|s: &'static str| s@)[k] == rel@[k]@);
        }
    }
    Ok(out)
}

/// Whether `model_id`'s files are all present (probes of
/// [`required_paths`], in order), and their total size: `DownloadFailed`
/// for an unknown id, otherwise as [`files_present_spec`] says, a failed
/// lookup being an `Io` error.
pub fn verify_cached_model(model_id: &str, probes: &Vec<FileProbe>) -> (r: Result<
    Option<u64>,
    RuntimeError,
>)
    requires
        present_prefix_total(probes@) <= u64::MAX,
    ensures
        !manifest_has(model_id@) ==> (r matches Err(RuntimeError::DownloadFailed(m)) && m@
            == unknown_model_message(model_id@)),
        manifest_has(model_id@) ==> result_view(r) == files_present_spec(probes@) && (r is Err
            ==> r->Err_0 is Io),
{
    match find(model_id) {
        Some(_) => verify_files_present(probes),
        None => Err(unknown_model(model_id)),
    }
}

} // verus!
