//! Install/launch decisions for the managed faster-whisper runtime.
//!
//! A usable local copy is either a packaged executable (standalone) or raw
//! Python source launched through an interpreter; packaged is preferred
//! when both are present. Looking at the disk, running `python --version`
//! and downloading are the caller's part: it reports what it found and
//! these functions decide what that means.
use vstd::prelude::*;

use crate::catalog::{variant_name, RuntimeVariant};
use crate::config::{join_path, path_join};
use crate::error::RuntimeError;
use crate::launch::{LaunchBuilder, LaunchBuilderView};
use crate::providers::cache::{
    locate, locations_view, opt_location_view, spec_locate, str_opt, FileProbe,
};
use crate::providers::Platform;
use crate::text::{concat, owned, trim, trimmed};

verus! {

/// Environment variable overriding where the runtime (packaged or raw
/// source) lives.
pub const RUNTIME_DIR_ENV_VAR: &'static str = "STT_FASTER_WHISPER_RUNTIME_DIR";

/// Environment variable overriding the release-asset base URL.
pub const RELEASE_BASE_URL_ENV_VAR: &'static str = "STT_FASTER_WHISPER_RELEASE_BASE_URL";

/// Environment variable overriding the runtime cache root.
pub const RUNTIME_CACHE_DIR_ENV_VAR: &'static str = "STT_FASTER_WHISPER_CACHE_DIR";

/// Environment variable overriding where model weights are cached.
pub const MODEL_CACHE_DIR_ENV_VAR: &'static str = "STT_FASTER_WHISPER_MODEL_DIR";

/// File next to a packaged executable naming its build variant.
pub const PACKAGED_VARIANT_SENTINEL_FILENAME: &'static str = "variant.txt";

/// The file whose presence and size prove a model finished downloading.
pub const MODEL_WEIGHTS_FILENAME: &'static str = "model.bin";

/// GitHub repository the packaged release assets are published to.
pub const RELEASE_REPO: &'static str = "mariuszRep/stt-server";

/// Which form of the runtime a directory holds.
#[derive(Debug, Clone, PartialEq, Eq)]
pub enum RuntimeKind {
    /// A standalone packaged executable at this path.
    Packaged(String),
    /// Raw Python source, spawned as `python run_sidecar.py`.
    RawSource,
}

pub enum RuntimeKindView {
    Packaged(Seq<char>),
    RawSource,
}

impl View for RuntimeKind {
    type V = RuntimeKindView;

    open spec fn view(&self) -> RuntimeKindView {
        match self {
            RuntimeKind::Packaged(p) => RuntimeKindView::Packaged(p@),
            RuntimeKind::RawSource => RuntimeKindView::RawSource,
        }
    }
}

pub open spec fn spec_packaged_executable_name(p: Platform) -> Seq<char> {
    match p {
        Platform::Windows => "voice-typer-backend.exe"@,
        Platform::Unix => "voice-typer-backend"@,
    }
}

/// The packaged runtime's executable name on a platform.
pub fn packaged_executable_name(p: Platform) -> (r: &'static str)
    ensures
        r@ == spec_packaged_executable_name(p),
{
    match p {
        Platform::Windows => "voice-typer-backend.exe",
        Platform::Unix => "voice-typer-backend",
    }
}

/// `<dir>/<packaged executable name>`.
pub fn packaged_executable_path(dir: &str, p: Platform) -> (r: String)
    ensures
        r@ == path_join(dir@, spec_packaged_executable_name(p)),
{
    join_path(dir, packaged_executable_name(p))
}

/// `<dir>/run_sidecar.py`, the raw-source entry point.
pub fn sidecar_script_path(dir: &str) -> (r: String)
    ensures
        r@ == path_join(dir@, "run_sidecar.py"@),
{
    join_path(dir, "run_sidecar.py")
}

/// `<dir>/app/main.py`, which raw source must also hold.
pub fn app_main_path(dir: &str) -> (r: String)
    ensures
        r@ == path_join(path_join(dir@, "app"@), "main.py"@),
{
    let app = join_path(dir, "app");
    join_path(app.as_str(), "main.py")
}

/// Which of a candidate directory's marker files are regular files.
#[derive(Debug, Clone, Copy)]
pub struct RuntimeDirProbe {
    /// [`packaged_executable_path`] is a file.
    pub packaged_is_file: bool,
    /// [`sidecar_script_path`] is a file.
    pub sidecar_is_file: bool,
    /// [`app_main_path`] is a file.
    pub app_main_is_file: bool,
}

pub open spec fn spec_detect_runtime_kind(
    dir: Seq<char>,
    p: Platform,
    probe: RuntimeDirProbe,
) -> Option<RuntimeKindView> {
    if probe.packaged_is_file {
        Some(RuntimeKindView::Packaged(path_join(dir, spec_packaged_executable_name(p))))
    } else if probe.sidecar_is_file && probe.app_main_is_file {
        Some(RuntimeKindView::RawSource)
    } else {
        None
    }
}

pub open spec fn kind_opt_view(k: Option<RuntimeKind>) -> Option<RuntimeKindView> {
    match k {
        Some(x) => Some(x@),
        None => None,
    }
}

/// Which usable form `dir` holds, preferring a packaged executable over
/// raw source.
pub fn detect_runtime_kind(dir: &str, p: Platform, probe: RuntimeDirProbe) -> (r: Option<
    RuntimeKind,
>)
    ensures
        kind_opt_view(r) == spec_detect_runtime_kind(dir@, p, probe),
{
    if probe.packaged_is_file {
        Some(RuntimeKind::Packaged(packaged_executable_path(dir, p)))
    } else if probe.sidecar_is_file && probe.app_main_is_file {
        Some(RuntimeKind::RawSource)
    } else {
        None
    }
}

/// Candidate runtime directories after the override: `<exe dir>/runtimes/faster-whisper`
/// and `<cwd>/runtimes/faster-whisper`, each when known.
pub fn runtime_dir_candidates(exe_dir: Option<&str>, cwd: Option<&str>) -> (r: Vec<String>)
    ensures
        r@.map_values(|s: String| s@) == (match exe_dir {
            Some(e) => seq![path_join(e@, "runtimes/faster-whisper"@)],
            None => Seq::<Seq<char>>::empty(),
        }) + (match cwd {
            Some(c) => seq![path_join(c@, "runtimes/faster-whisper"@)],
            None => Seq::<Seq<char>>::empty(),
        }),
{
    let mut r: Vec<String> = Vec::new();
    if let Some(e) = exe_dir {
        r.push(join_path(e, "runtimes/faster-whisper"));
    }
    let ghost first = r@.map_values(|s: String| s@);
    if let Some(c) = cwd {
        r.push(join_path(c, "runtimes/faster-whisper"));
        assert(r@.map_values(|s: String| s@) =~= first.push(path_join(c@, "runtimes/faster-whisper"@)));
    }
    assert(r@.map_values(|s: String| s@) =~= (match exe_dir {
        Some(e) => seq![path_join(e@, "runtimes/faster-whisper"@)],
        None => Seq::<Seq<char>>::empty(),
    }) + (match cwd {
        Some(c) => seq![path_join(c@, "runtimes/faster-whisper"@)],
        None => Seq::<Seq<char>>::empty(),
    }));
    r
}

/// Picks the runtime directory: with the override set, the override if it
/// holds a usable runtime (and nothing otherwise, with no fallback);
/// without one, the first of [`runtime_dir_candidates`] that holds one.
/// Each directory comes with whether [`detect_runtime_kind`] found a usable
/// form in it.
pub fn locate_runtime_dir(override_dir: Option<(String, bool)>, candidates: &Vec<(String, bool)>) -> (r:
    Option<String>)
    ensures
        str_opt(r) == spec_locate(opt_location_view(override_dir), locations_view(candidates@)),
{
    locate(override_dir, candidates)
}

pub open spec fn variant_opt_of(text: Option<Seq<char>>) -> Option<RuntimeVariant> {
    match text {
        Some(t) => if trimmed(t) == "cpu"@ {
            Some(RuntimeVariant::Cpu)
        } else if trimmed(t) == "gpu"@ {
            Some(RuntimeVariant::Gpu)
        } else {
            None
        },
        None => None,
    }
}

/// The variant the sentinel file next to a packaged executable names:
/// its trimmed contents parsed as `cpu`/`gpu`; `None` when it could not be
/// read (`contents` is `None`) or names neither.
pub fn read_packaged_variant_sentinel(contents: Option<&str>) -> (r: Option<RuntimeVariant>)
    ensures
        r == variant_opt_of(match contents {
            Some(c) => Some(c@),
            None => None,
        }),
{
    match contents {
        Some(c) => {
            let t = trim(c);
            RuntimeVariant::parse(t.as_str())
        },
        None => None,
    }
}

pub open spec fn spec_python_candidates(p: Platform) -> Seq<Seq<char>> {
    match p {
        Platform::Windows => seq!["python"@, "python3"@],
        Platform::Unix => seq!["python3"@, "python"@],
    }
}

/// Interpreter names to try, in order: a `venv` provides only `python` on
/// Windows, and both `python3` and `python` elsewhere.
pub fn python_candidates(p: Platform) -> (r: [&'static str; 2])
    ensures
        r[0]@ == spec_python_candidates(p)[0],
        r[1]@ == spec_python_candidates(p)[1],
{
    match p {
        Platform::Windows => ["python", "python3"],
        Platform::Unix => ["python3", "python"],
    }
}

/// The first interpreter whose `--version` succeeded (`works[i]` for the
/// `i`-th candidate); `ProviderNotInstalled` when neither did.
pub fn resolve_python(p: Platform, works: [bool; 2]) -> (r: Result<&'static str, RuntimeError>)
    ensures
        works[0] ==> (r matches Ok(s) && s@ == spec_python_candidates(p)[0]),
        !works[0] && works[1] ==> (r matches Ok(s) && s@ == spec_python_candidates(p)[1]),
        !works[0] && !works[1] ==> (r matches Err(RuntimeError::ProviderNotInstalled(m)) && m@
            == "no python3/python interpreter found on PATH"@),
{
    let c = python_candidates(p);
    if works[0] {
        Ok(c[0])
    } else if works[1] {
        Ok(c[1])
    } else {
        Err(RuntimeError::ProviderNotInstalled(owned("no python3/python interpreter found on PATH")))
    }
}

/// The packaged form's launch builder.
pub fn packaged_launch_builder(exe_path: String, runtime_dir: String) -> (r: LaunchBuilder)
    ensures
        r@ == (LaunchBuilderView::Packaged { exe_path: exe_path@, runtime_dir: runtime_dir@ }),
{
    LaunchBuilder::Packaged { exe_path, runtime_dir }
}

/// The raw-source form's launch builder.
pub fn raw_source_launch_builder(runtime_dir: String, python: String) -> (r: LaunchBuilder)
    ensures
        r@ == (LaunchBuilderView::RawSource { runtime_dir: runtime_dir@, python: python@ }),
{
    LaunchBuilder::RawSource { runtime_dir, python }
}

/// Install from what is local: the located runtime directory and its form
/// (or `None`), and the resolved interpreter (needed for raw source).
/// Fails with `ProviderNotInstalled` when no runtime was located, when its
/// directory holds neither form, or (raw source) when no interpreter was
/// found.
pub fn install(
    located: Option<(String, Option<RuntimeKind>)>,
    python: Result<&str, RuntimeError>,
) -> (r: Result<LaunchBuilder, RuntimeError>)
    ensures
        match located {
            None => r matches Err(RuntimeError::ProviderNotInstalled(m)) && m@
                == "faster-whisper runtime not found locally (set "@ + RUNTIME_DIR_ENV_VAR@
                + ", or place it at <binary-dir>/runtimes/faster-whisper)"@,
            Some((dir, None)) => r matches Err(RuntimeError::ProviderNotInstalled(m)) && m@ == dir@
                + " contains neither a packaged executable nor raw Python source"@,
            Some((dir, Some(RuntimeKind::Packaged(exe)))) => r matches Ok(b) && b@
                == (LaunchBuilderView::Packaged { exe_path: exe@, runtime_dir: dir@ }),
            Some((dir, Some(RuntimeKind::RawSource))) => match python {
                Ok(py) => r matches Ok(b) && b@ == (LaunchBuilderView::RawSource {
                    runtime_dir: dir@,
                    python: py@,
                }),
                Err(e) => r == Err::<LaunchBuilder, RuntimeError>(e),
            },
        },
{
    match located {
        None => {
            let mut m = concat("faster-whisper runtime not found locally (set ", RUNTIME_DIR_ENV_VAR);
            m.append(", or place it at <binary-dir>/runtimes/faster-whisper)");
            Err(RuntimeError::ProviderNotInstalled(m))
        },
        Some((dir, kind)) => match kind {
            Some(RuntimeKind::Packaged(exe)) => Ok(packaged_launch_builder(exe, dir)),
            Some(RuntimeKind::RawSource) => match python {
                Ok(py) => Ok(raw_source_launch_builder(dir, owned(py))),
                Err(e) => Err(e),
            },
            None => {
                let m = concat(
                    dir.as_str(),
                    " contains neither a packaged executable nor raw Python source",
                );
                Err(RuntimeError::ProviderNotInstalled(m))
            },
        },
    }
}

/// `https://github.com/<repo>/releases/download/v<version>`, unless the
/// environment overrides it.
pub fn release_base_url(override_url: Option<String>, version: &str) -> (r: String)
    ensures
        r@ == (match override_url {
            Some(u) => u@,
            None => "https://github.com/"@ + RELEASE_REPO@ + "/releases/download/v"@ + version@,
        }),
{
    match override_url {
        Some(u) => u,
        None => {
            let mut r = concat("https://github.com/", RELEASE_REPO);
            r.append("/releases/download/v");
            r.append(version);
            r
        },
    }
}

pub open spec fn os_name(p: Platform) -> Seq<char> {
    match p {
        Platform::Windows => "windows"@,
        Platform::Unix => "linux"@,
    }
}

pub open spec fn exe_ext(p: Platform) -> Seq<char> {
    match p {
        Platform::Windows => ".exe"@,
        Platform::Unix => ""@,
    }
}

pub open spec fn spec_asset_name(v: RuntimeVariant, p: Platform) -> Seq<char> {
    "faster-whisper-runtime-"@ + os_name(p) + "-"@ + variant_name(v) + exe_ext(p)
}

/// Release-asset filename: `faster-whisper-runtime-<os>-<variant><ext>`.
pub fn asset_name(v: RuntimeVariant, p: Platform) -> (r: String)
    ensures
        r@ == spec_asset_name(v, p),
{
    let (os, ext): (&str, &str) = match p {
        Platform::Windows => ("windows", ".exe"),
        Platform::Unix => ("linux", ""),
    };
    let mut r = concat("faster-whisper-runtime-", os);
    r.append("-");
    r.append(v.as_str());
    r.append(ext);
    r
}

/// `<base>/<name>`: where an asset is downloaded from.
pub fn asset_url(base: &str, name: &str) -> (r: String)
    ensures
        r@ == base@ + "/"@ + name@,
{
    let mut r = concat(base, "/");
    r.append(name);
    r
}

pub open spec fn spec_cached_variant_dir(cache_root: Seq<char>, v: RuntimeVariant) -> Seq<char> {
    path_join(path_join(cache_root, "faster-whisper"@), variant_name(v))
}

/// `<cache root>/faster-whisper/<variant>`: one downloaded variant's
/// directory (each variant its own, so installing one never evicts
/// another).
pub fn cached_variant_dir(cache_root: &str, v: RuntimeVariant) -> (r: String)
    ensures
        r@ == spec_cached_variant_dir(cache_root@, v),
{
    let p = join_path(cache_root, "faster-whisper");
    join_path(p.as_str(), v.as_str())
}

/// `<variant dir>/<asset name>`: a downloaded variant's executable.
pub fn cached_variant_exe_path(cache_root: &str, v: RuntimeVariant, p: Platform) -> (r: String)
    ensures
        r@ == path_join(spec_cached_variant_dir(cache_root@, v), spec_asset_name(v, p)),
{
    let d = cached_variant_dir(cache_root, v);
    let n = asset_name(v, p);
    join_path(d.as_str(), n.as_str())
}

/// What is locally available for [`install_local`].
#[derive(Debug)]
pub struct LocalRuntime {
    /// The located runtime directory and the form found in it.
    pub located: Option<(String, RuntimeKind)>,
    /// The variant named by the sentinel next to a packaged executable.
    pub sentinel: Option<RuntimeVariant>,
    /// The resolved interpreter, when raw source needs one.
    pub python: Option<String>,
    /// Whether the cached executable of the requested variant is a file.
    pub cached_is_file: bool,
}

/// Local-only install of `variant`: a located packaged executable (unless
/// its sentinel names the other variant), else located raw source with an
/// interpreter, else the cached download of exactly this variant, else
/// nothing.
pub open spec fn spec_install_local(
    located: Option<(Seq<char>, RuntimeKindView)>,
    sentinel: Option<RuntimeVariant>,
    python: Option<Seq<char>>,
    cached_is_file: bool,
    cache_root: Seq<char>,
    v: RuntimeVariant,
    p: Platform,
) -> Option<LaunchBuilderView> {
    let from_dev = match located {
        Some((dir, RuntimeKindView::Packaged(exe))) => if sentinel matches Some(found) && found
            != v {
            None
        } else {
            Some(LaunchBuilderView::Packaged { exe_path: exe, runtime_dir: dir })
        },
        Some((dir, RuntimeKindView::RawSource)) => match python {
            Some(py) => Some(LaunchBuilderView::RawSource { runtime_dir: dir, python: py }),
            None => None,
        },
        None => None,
    };
    if from_dev is Some {
        from_dev
    } else if cached_is_file {
        Some(
            LaunchBuilderView::Packaged {
                exe_path: path_join(spec_cached_variant_dir(cache_root, v), spec_asset_name(v, p)),
                runtime_dir: spec_cached_variant_dir(cache_root, v),
            },
        )
    } else {
        None
    }
}

pub open spec fn located_view(l: Option<(String, RuntimeKind)>) -> Option<(Seq<char>, RuntimeKindView)> {
    match l {
        Some((d, k)) => Some((d@, k@)),
        None => None,
    }
}

pub open spec fn builder_opt_view(b: Option<LaunchBuilder>) -> Option<LaunchBuilderView> {
    match b {
        Some(x) => Some(x@),
        None => None,
    }
}

/// Decides [`spec_install_local`] from what was found locally.
pub fn install_local(local: &LocalRuntime, cache_root: &str, v: RuntimeVariant, p: Platform) -> (r:
    Option<LaunchBuilder>)
    ensures
        builder_opt_view(r) == spec_install_local(
            located_view(local.located),
            local.sentinel,
            str_opt(local.python),
            local.cached_is_file,
            cache_root@,
            v,
            p,
        ),
{
    match &local.located {
        Some((dir, RuntimeKind::Packaged(exe))) => {
            let mismatch = match local.sentinel {
                Some(found) => found != v,
                None => false,
            };
            if !mismatch {
                return Some(packaged_launch_builder(exe.clone(), dir.clone()));
            }
        },
        Some((dir, RuntimeKind::RawSource)) => {
            if let Some(py) = &local.python {
                return Some(raw_source_launch_builder(dir.clone(), py.clone()));
            }
        },
        None => {},
    }
    if local.cached_is_file {
        let exe = cached_variant_exe_path(cache_root, v, p);
        let dir = cached_variant_dir(cache_root, v);
        Some(packaged_launch_builder(exe, dir))
    } else {
        None
    }
}

/// What to spawn to download a model: program, base arguments, working
/// directory.
pub struct DownloadRuntime {
    pub program: String,
    pub args: Vec<String>,
    pub cwd: String,
}

/// Any usable local runtime can fetch model weights: the located one
/// (packaged, or raw source with an interpreter), else a cached CPU build,
/// else a cached GPU build.
pub open spec fn spec_download_runtime(
    located: Option<(Seq<char>, RuntimeKindView)>,
    python: Option<Seq<char>>,
    cpu_cached: bool,
    gpu_cached: bool,
    cache_root: Seq<char>,
    p: Platform,
) -> Option<(Seq<char>, Seq<Seq<char>>, Seq<char>)> {
    let from_dev = match located {
        Some((dir, RuntimeKindView::Packaged(exe))) => Some((exe, Seq::<Seq<char>>::empty(), dir)),
        Some((dir, RuntimeKindView::RawSource)) => match python {
            Some(py) => Some((py, seq!["run_sidecar.py"@], dir)),
            None => None,
        },
        None => None,
    };
    if from_dev is Some {
        from_dev
    } else if cpu_cached {
        let d = spec_cached_variant_dir(cache_root, RuntimeVariant::Cpu);
        Some((path_join(d, spec_asset_name(RuntimeVariant::Cpu, p)), Seq::<Seq<char>>::empty(), d))
    } else if gpu_cached {
        let d = spec_cached_variant_dir(cache_root, RuntimeVariant::Gpu);
        Some((path_join(d, spec_asset_name(RuntimeVariant::Gpu, p)), Seq::<Seq<char>>::empty(), d))
    } else {
        None
    }
}

pub open spec fn download_runtime_view(d: Option<DownloadRuntime>) -> Option<
    (Seq<char>, Seq<Seq<char>>, Seq<char>),
> {
    match d {
        Some(x) => Some((x.program@, x.args@.map_values(|a: String| a@), x.cwd@)),
        None => None,
    }
}

/// Decides [`spec_download_runtime`].
pub fn resolve_download_runtime(
    located: &Option<(String, RuntimeKind)>,
    python: &Option<String>,
    cpu_cached: bool,
    gpu_cached: bool,
    cache_root: &str,
    p: Platform,
) -> (r: Option<DownloadRuntime>)
    ensures
        download_runtime_view(r) == spec_download_runtime(
            located_view(*located),
            str_opt(*python),
            cpu_cached,
            gpu_cached,
            cache_root@,
            p,
        ),
{
    match located {
        Some((dir, RuntimeKind::Packaged(exe))) => {
            let args: Vec<String> = Vec::new();
            assert(args@.map_values(|a: String| a@) =~= Seq::<Seq<char>>::empty());
            return Some(DownloadRuntime { program: exe.clone(), args, cwd: dir.clone() });
        },
        Some((dir, RuntimeKind::RawSource)) => {
            if let Some(py) = python {
                let mut args: Vec<String> = Vec::new();
                args.push(owned("run_sidecar.py"));
                assert(args@.map_values(|a: String| a@) =~= seq!["run_sidecar.py"@]);
                return Some(DownloadRuntime { program: py.clone(), args, cwd: dir.clone() });
            }
        },
        None => {},
    }
    let args: Vec<String> = Vec::new();
    assert(args@.map_values(|a: String| a@) =~= Seq::<Seq<char>>::empty());
    if cpu_cached {
        Some(
            DownloadRuntime {
                program: cached_variant_exe_path(cache_root, RuntimeVariant::Cpu, p),
                args,
                cwd: cached_variant_dir(cache_root, RuntimeVariant::Cpu),
            },
        )
    } else if gpu_cached {
        Some(
            DownloadRuntime {
                program: cached_variant_exe_path(cache_root, RuntimeVariant::Gpu, p),
                args,
                cwd: cached_variant_dir(cache_root, RuntimeVariant::Gpu),
            },
        )
    } else {
        None
    }
}

/// Why a model cannot be downloaded when no local runtime exists.
pub fn no_download_runtime_error() -> (r: RuntimeError)
    ensures
        r matches RuntimeError::ProviderNotInstalled(m) && m@
            == "no local faster-whisper runtime found \u{2014} install a provider variant first (e.g. `stt provider install faster-whisper`) before pulling a model"@,
{
    RuntimeError::ProviderNotInstalled(
        owned(
            "no local faster-whisper runtime found \u{2014} install a provider variant first (e.g. `stt provider install faster-whisper`) before pulling a model",
        ),
    )
}

/// The full argument list of a model download: the runtime's base
/// arguments, then `download-model <model> <output dir>`.
pub fn download_model_args(base: Vec<String>, model_id: &str, output_dir: &str) -> (r: Vec<String>)
    ensures
        r@.map_values(|a: String| a@) == base@.map_values(|a: String| a@) + seq![
            "download-model"@,
            model_id@,
            output_dir@,
        ],
{
    let mut r = base;
    r.push(owned("download-model"));
    r.push(owned(model_id));
    r.push(owned(output_dir));
    assert(r@.map_values(|a: String| a@) =~= base@.map_values(|a: String| a@) + seq![
        "download-model"@,
        model_id@,
        output_dir@,
    ]);
    r
}

/// The error of a model download whose process failed.
pub fn model_download_failed(model_id: &str, stderr: &str) -> (r: RuntimeError)
    ensures
        r matches RuntimeError::DownloadFailed(m) && m@ == "model download for "@ + model_id@
            + " failed: "@ + stderr@,
{
    let mut m = concat("model download for ", model_id);
    m.append(" failed: ");
    m.append(stderr);
    RuntimeError::DownloadFailed(m)
}

pub open spec fn spec_cached_model_dir(model_root: Seq<char>, model_id: Seq<char>) -> Seq<char> {
    path_join(path_join(model_root, "faster-whisper"@), model_id)
}

/// `<model root>/faster-whisper/<model id>`: where a model's weights live
/// (a model id with `/` nests one level deeper).
pub fn cached_model_dir(model_root: &str, model_id: &str) -> (r: String)
    ensures
        r@ == spec_cached_model_dir(model_root@, model_id@),
{
    let p = join_path(model_root, "faster-whisper");
    join_path(p.as_str(), model_id)
}

/// `<model dir>/model.bin`: the file whose probe decides
/// [`verify_cached_model`].
pub fn model_weights_path(model_root: &str, model_id: &str) -> (r: String)
    ensures
        r@ == path_join(spec_cached_model_dir(model_root@, model_id@), MODEL_WEIGHTS_FILENAME@),
{
    let d = cached_model_dir(model_root, model_id);
    join_path(d.as_str(), MODEL_WEIGHTS_FILENAME)
}

/// What a probe of the weights file says: its size when something
/// non-empty is there, `None` when it is empty or missing, the failed
/// lookup's message otherwise.
pub open spec fn spec_weights_status(probe: FileProbe) -> Result<Option<u64>, Seq<char>> {
    match probe {
        FileProbe::Present { is_file: _, len } => if len > 0 {
            Ok(Some(len))
        } else {
            Ok(None)
        },
        FileProbe::NotFound => Ok(None),
        FileProbe::Failed(m) => Err(m@),
    }
}

pub open spec fn status_view(r: Result<Option<u64>, RuntimeError>) -> Result<Option<u64>, Seq<char>> {
    match r {
        Ok(o) => Ok(o),
        Err(RuntimeError::Io(m)) => Err(m@),
        Err(_) => Err(Seq::empty()),
    }
}

/// Whether a model's weights are present, and their size (see
/// [`spec_weights_status`]); a failed lookup is an `Io` error.
pub fn verify_cached_model(weights: &FileProbe) -> (r: Result<Option<u64>, RuntimeError>)
    ensures
        status_view(r) == spec_weights_status(*weights),
        r is Err ==> r->Err_0 is Io,
{
    match weights {
        FileProbe::Present { is_file: _, len } => {
            if *len > 0 {
                Ok(Some(*len))
            } else {
                Ok(None)
            }
        },
        FileProbe::NotFound => Ok(None),
        FileProbe::Failed(m) => Err(RuntimeError::Io(m.clone())),
    }
}

/// A located packaged executable whose sentinel names the other variant
/// is never what a local install of `v` launches: the result is the
/// cached download of exactly `v`, or nothing.
pub proof fn law_install_local_never_substitutes_the_other_variant(
    dir: Seq<char>,
    exe: Seq<char>,
    found: RuntimeVariant,
    python: Option<Seq<char>>,
    cached_is_file: bool,
    cache_root: Seq<char>,
    v: RuntimeVariant,
    p: Platform,
)
    requires
        found != v,
    ensures
        ({
            let r = spec_install_local(
                Some((dir, RuntimeKindView::Packaged(exe))),
                Some(found),
                python,
                cached_is_file,
                cache_root,
                v,
                p,
            );
            match r {
                Some(LaunchBuilderView::Packaged { exe_path, runtime_dir }) => exe_path == path_join(
                    spec_cached_variant_dir(cache_root, v),
                    spec_asset_name(v, p),
                ) && runtime_dir == spec_cached_variant_dir(cache_root, v),
                Some(_) => false,
                None => !cached_is_file,
            }
        }),
{
}

/// Variant builds are cached side by side: the CPU and GPU builds live in
/// different directories under the same cache root, so installing (or
/// removing) one never touches the other.
pub proof fn law_variant_caches_side_by_side(cache_root: Seq<char>)
    ensures
        spec_cached_variant_dir(cache_root, RuntimeVariant::Cpu) != spec_cached_variant_dir(
            cache_root,
            RuntimeVariant::Gpu,
        ),
{
    reveal_strlit("cpu");
    reveal_strlit("gpu");
    let base = path_join(cache_root, "faster-whisper"@);
    let c = spec_cached_variant_dir(cache_root, RuntimeVariant::Cpu);
    let g = spec_cached_variant_dir(cache_root, RuntimeVariant::Gpu);
    assert(c.len() == g.len());
    assert(c[c.len() - 3] == 'c');
    assert(g[g.len() - 3] == 'g');
}

/// Which local runtime fetches model weights: a located packaged build
/// runs it itself (no base arguments, in its own directory) whatever the
/// caches hold; located raw source runs `run_sidecar.py` under the
/// interpreter found; only without either does a cached build serve, the
/// CPU one before the GPU one. There is none exactly when nothing usable
/// is local.
pub proof fn law_model_downloads_use_the_located_runtime_first(
    located: Option<(Seq<char>, RuntimeKindView)>,
    python: Option<Seq<char>>,
    cpu_cached: bool,
    gpu_cached: bool,
    cache_root: Seq<char>,
    p: Platform,
)
    ensures
        ({
            let r = spec_download_runtime(located, python, cpu_cached, gpu_cached, cache_root, p);
            let dev_usable = match located {
                Some((_, RuntimeKindView::Packaged(_))) => true,
                Some((_, RuntimeKindView::RawSource)) => python is Some,
                None => false,
            };
            &&& (located matches Some((dir, RuntimeKindView::Packaged(exe))) ==> r == Some(
                (exe, Seq::<Seq<char>>::empty(), dir),
            ))
            &&& (located matches Some((dir, RuntimeKindView::RawSource)) ==> (python matches Some(
                py,
            ) ==> r == Some((py, seq!["run_sidecar.py"@], dir))))
            &&& (!dev_usable && cpu_cached ==> (r matches Some((prog, args, cwd)) && cwd
                == spec_cached_variant_dir(cache_root, RuntimeVariant::Cpu) && args.len() == 0))
            &&& (!dev_usable && !cpu_cached && gpu_cached ==> (r matches Some((prog, args, cwd))
                && cwd == spec_cached_variant_dir(cache_root, RuntimeVariant::Gpu) && args.len()
                == 0))
            &&& (r is None <==> (!dev_usable && !cpu_cached && !gpu_cached))
        }),
{
}

/// A usable located copy of the runtime (the override directory or the
/// one next to the binary or working directory) is what a local install
/// launches, whether or not a download is cached: a packaged build whose
/// variant sentinel is absent or names the requested variant, or raw
/// source when an interpreter was found. The cached download serves only
/// when nothing is located.
pub proof fn law_located_copy_wins_over_the_cache(
    dir: Seq<char>,
    exe: Seq<char>,
    sentinel: Option<RuntimeVariant>,
    python: Option<Seq<char>>,
    cached_is_file: bool,
    cache_root: Seq<char>,
    v: RuntimeVariant,
    p: Platform,
)
    ensures
        (sentinel is None || sentinel == Some(v)) ==> spec_install_local(
            Some((dir, RuntimeKindView::Packaged(exe))),
            sentinel,
            python,
            cached_is_file,
            cache_root,
            v,
            p,
        ) == Some(LaunchBuilderView::Packaged { exe_path: exe, runtime_dir: dir }),
        python matches Some(py) ==> spec_install_local(
            Some((dir, RuntimeKindView::RawSource)),
            sentinel,
            python,
            cached_is_file,
            cache_root,
            v,
            p,
        ) == Some(LaunchBuilderView::RawSource { runtime_dir: dir, python: py }),
        spec_install_local(None, sentinel, python, cached_is_file, cache_root, v, p) is Some
            <==> cached_is_file,
{
}

} // verus!
