//! What to run for a provider: per-call start options, the launch spec
//! (program, args, env, working directory), and the registered launch
//! builders that produce one for a given port, token and model.
use vstd::prelude::*;

use crate::config::{opt_view, path_join};
use crate::text::{decimal, owned, u64_to_decimal};

verus! {

/// Per-call start hints layered on top of the persistently selected
/// model. `None` for `device`/`compute_type` lets the runtime auto-detect;
/// `bind_host` `None` binds loopback; `auth_token` overrides the freshly
/// generated per-instance token (mandatory with a non-loopback host).
#[derive(Debug)]
pub struct StartOptions {
    pub device: Option<String>,
    pub compute_type: Option<String>,
    pub bind_host: Option<String>,
    pub auth_token: Option<String>,
}

impl StartOptions {
    /// No hints at all.
    pub fn default() -> (r: StartOptions)
        ensures
            r.device.is_none(),
            r.compute_type.is_none(),
            r.bind_host.is_none(),
            r.auth_token.is_none(),
    {
        StartOptions { device: None, compute_type: None, bind_host: None, auth_token: None }
    }
}

/// The host a runtime binds: the requested one, loopback by default.
pub open spec fn bind_host_of(options: StartOptions) -> Seq<char> {
    match options.bind_host {
        Some(h) => h@,
        None => "127.0.0.1"@,
    }
}

/// A launch spec: program, args, environment and working directory.
#[derive(Debug)]
pub struct Launch {
    pub program: String,
    pub args: Vec<String>,
    pub env: Vec<(String, String)>,
    pub cwd: Option<String>,
}

pub struct LaunchView {
    pub program: Seq<char>,
    pub args: Seq<Seq<char>>,
    pub env: Seq<(Seq<char>, Seq<char>)>,
    pub cwd: Option<Seq<char>>,
}

pub open spec fn env_view(env: Seq<(String, String)>) -> Seq<(Seq<char>, Seq<char>)> {
    env.map_values(|p: (String, String)| (p.0@, p.1@))
}

pub open spec fn args_view(args: Seq<String>) -> Seq<Seq<char>> {
    args.map_values(|a: String| a@)
}

impl View for Launch {
    type V = LaunchView;

    open spec fn view(&self) -> LaunchView {
        LaunchView {
            program: self.program@,
            args: args_view(self.args@),
            env: env_view(self.env@),
            cwd: opt_view(self.cwd),
        }
    }
}

/// How to launch a registered provider build.
#[derive(Debug)]
pub enum LaunchBuilder {
    /// A standalone packaged faster-whisper executable, spawned directly.
    Packaged { exe_path: String, runtime_dir: String },
    /// Raw faster-whisper Python source, spawned as `<python> run_sidecar.py`.
    RawSource { runtime_dir: String, python: String },
    /// A `sherpad` binary.
    Sherpad { binary: String },
}

pub enum LaunchBuilderView {
    Packaged { exe_path: Seq<char>, runtime_dir: Seq<char> },
    RawSource { runtime_dir: Seq<char>, python: Seq<char> },
    Sherpad { binary: Seq<char> },
}

impl View for LaunchBuilder {
    type V = LaunchBuilderView;

    open spec fn view(&self) -> LaunchBuilderView {
        match self {
            LaunchBuilder::Packaged { exe_path, runtime_dir } => LaunchBuilderView::Packaged {
                exe_path: exe_path@,
                runtime_dir: runtime_dir@,
            },
            LaunchBuilder::RawSource { runtime_dir, python } => LaunchBuilderView::RawSource {
                runtime_dir: runtime_dir@,
                python: python@,
            },
            LaunchBuilder::Sherpad { binary } => LaunchBuilderView::Sherpad { binary: binary@ },
        }
    }
}

/// `(key, value)` pair of an environment variable.
pub fn env_pair(key: &str, value: &str) -> (r: (String, String))
    ensures
        r.0@ == key@,
        r.1@ == value@,
{
    (owned(key), owned(value))
}

/// Env vars of a faster-whisper launch (both forms read the same
/// `VOICE_TYPER_*` contract): host (default loopback), auth token, the
/// selected model and its weights directory `<model_root>/faster-whisper/<model>`,
/// device and compute type when given.
pub open spec fn faster_whisper_env(
    auth_token: Seq<char>,
    selected_model: Option<Seq<char>>,
    options: StartOptions,
    model_root: Seq<char>,
) -> Seq<(Seq<char>, Seq<char>)> {
    let base = seq![
        ("VOICE_TYPER_HOST"@, bind_host_of(options)),
        ("VOICE_TYPER_AUTH_TOKEN"@, auth_token),
    ];
    let with_model = match selected_model {
        Some(m) => base + seq![
            ("VOICE_TYPER_MODEL"@, m),
            ("VOICE_TYPER_MODEL_DIR"@, path_join(path_join(model_root, "faster-whisper"@), m)),
        ],
        None => base,
    };
    let with_device = match options.device {
        Some(d) => with_model.push(("VOICE_TYPER_DEVICE"@, d@)),
        None => with_model,
    };
    match options.compute_type {
        Some(c) => with_device.push(("VOICE_TYPER_COMPUTE_TYPE"@, c@)),
        None => with_device,
    }
}

/// Env vars of a `sherpad` launch: host, auth token, the provider's whole
/// model root `<model_root>/sherpa-onnx` (its registry scans every
/// installed model), and the selected model when given.
pub open spec fn sherpad_env(
    auth_token: Seq<char>,
    selected_model: Option<Seq<char>>,
    options: StartOptions,
    model_root: Seq<char>,
) -> Seq<(Seq<char>, Seq<char>)> {
    let base = seq![
        ("VOICE_TYPER_HOST"@, bind_host_of(options)),
        ("VOICE_TYPER_AUTH_TOKEN"@, auth_token),
        ("VOICE_TYPER_MODEL_DIR"@, path_join(model_root, "sherpa-onnx"@)),
    ];
    match selected_model {
        Some(m) => base.push(("VOICE_TYPER_MODEL"@, m)),
        None => base,
    }
}

/// The launch a builder produces for `port`, `auth_token`, the selected
/// model, the start options, and the model cache root in effect.
pub open spec fn spec_build(
    b: LaunchBuilderView,
    port: u16,
    auth_token: Seq<char>,
    selected_model: Option<Seq<char>>,
    options: StartOptions,
    model_root: Seq<char>,
) -> LaunchView {
    let port_pair = ("VOICE_TYPER_PORT"@, decimal(port as nat));
    match b {
        LaunchBuilderView::Packaged { exe_path, runtime_dir } => LaunchView {
            program: exe_path,
            args: Seq::empty(),
            env: faster_whisper_env(auth_token, selected_model, options, model_root).push(
                port_pair,
            ),
            cwd: Some(runtime_dir),
        },
        LaunchBuilderView::RawSource { runtime_dir, python } => LaunchView {
            program: python,
            args: seq!["run_sidecar.py"@],
            env: faster_whisper_env(auth_token, selected_model, options, model_root).push(
                port_pair,
            ),
            cwd: Some(runtime_dir),
        },
        LaunchBuilderView::Sherpad { binary } => LaunchView {
            program: binary,
            args: Seq::empty(),
            env: sherpad_env(auth_token, selected_model, options, model_root).push(port_pair),
            cwd: None,
        },
    }
}

pub open spec fn str_opt_view(o: Option<&str>) -> Option<Seq<char>> {
    match o {
        Some(s) => Some(s@),
        None => None,
    }
}

fn faster_whisper_env_exec(
    auth_token: &str,
    selected_model: Option<&str>,
    options: &StartOptions,
    model_root: &str,
) -> (r: Vec<(String, String)>)
    ensures
        env_view(r@) == faster_whisper_env(
            auth_token@,
            str_opt_view(selected_model),
            *options,
            model_root@,
        ),
{
    let host: &str = match &options.bind_host {
        Some(h) => h.as_str(),
        None => "127.0.0.1",
    };
    let mut env: Vec<(String, String)> = Vec::new();
    env.push(env_pair("VOICE_TYPER_HOST", host));
    env.push(env_pair("VOICE_TYPER_AUTH_TOKEN", auth_token));
    let ghost base = seq![
        ("VOICE_TYPER_HOST"@, bind_host_of(*options)),
        ("VOICE_TYPER_AUTH_TOKEN"@, auth_token@),
    ];
    assert(env_view(env@) =~= base);
    if let Some(model) = selected_model {
        env.push(env_pair("VOICE_TYPER_MODEL", model));
        let p = crate::config::join_path(model_root, "faster-whisper");
        let dir = crate::config::join_path(p.as_str(), model);
        env.push((owned("VOICE_TYPER_MODEL_DIR"), dir));
        assert(env_view(env@) =~= base + seq![
            ("VOICE_TYPER_MODEL"@, model@),
            ("VOICE_TYPER_MODEL_DIR"@, path_join(path_join(model_root@, "faster-whisper"@), model@)),
        ]);
    }
    let ghost with_model = env_view(env@);
    if let Some(device) = &options.device {
        env.push(env_pair("VOICE_TYPER_DEVICE", device.as_str()));
        assert(env_view(env@) =~= with_model.push(("VOICE_TYPER_DEVICE"@, device@)));
    }
    let ghost with_device = env_view(env@);
    if let Some(compute_type) = &options.compute_type {
        env.push(env_pair("VOICE_TYPER_COMPUTE_TYPE", compute_type.as_str()));
        assert(env_view(env@) =~= with_device.push(
            ("VOICE_TYPER_COMPUTE_TYPE"@, compute_type@),
        ));
    }
    env
}

fn sherpad_env_exec(
    auth_token: &str,
    selected_model: Option<&str>,
    options: &StartOptions,
    model_root: &str,
) -> (r: Vec<(String, String)>)
    ensures
        env_view(r@) == sherpad_env(auth_token@, str_opt_view(selected_model), *options, model_root@),
{
    let host: &str = match &options.bind_host {
        Some(h) => h.as_str(),
        None => "127.0.0.1",
    };
    let mut env: Vec<(String, String)> = Vec::new();
    env.push(env_pair("VOICE_TYPER_HOST", host));
    env.push(env_pair("VOICE_TYPER_AUTH_TOKEN", auth_token));
    env.push((owned("VOICE_TYPER_MODEL_DIR"), crate::config::join_path(model_root, "sherpa-onnx")));
    let ghost base = env_view(env@);
    if let Some(model) = selected_model {
        env.push(env_pair("VOICE_TYPER_MODEL", model));
        assert(env_view(env@) =~= base.push(("VOICE_TYPER_MODEL"@, model@)));
    }
    env
}

impl LaunchBuilder {
    /// The launch for `port`, `auth_token`, the selected model, the start
    /// options and the model cache root: the shared `VOICE_TYPER_*`
    /// contract plus `VOICE_TYPER_PORT`.
    pub fn build(
        &self,
        port: u16,
        auth_token: &str,
        selected_model: Option<&str>,
        options: &StartOptions,
        model_root: &str,
    ) -> (r: Launch)
        ensures
            r@ == spec_build(
                self@,
                port,
                auth_token@,
                str_opt_view(selected_model),
                *options,
                model_root@,
            ),
    {
        let port_str = u64_to_decimal(port as u64);
        match self {
            LaunchBuilder::Packaged { exe_path, runtime_dir } => {
                let mut env = faster_whisper_env_exec(
                    auth_token,
                    selected_model,
                    options,
                    model_root,
                );
                let ghost before = env_view(env@);
                env.push((owned("VOICE_TYPER_PORT"), port_str));
                assert(env_view(env@) =~= before.push(("VOICE_TYPER_PORT"@, decimal(port as nat))));
                let args: Vec<String> = Vec::new();
                assert(args_view(args@) =~= Seq::<Seq<char>>::empty());
                Launch {
                    program: exe_path.clone(),
                    args,
                    env,
                    cwd: Some(runtime_dir.clone()),
                }
            },
            LaunchBuilder::RawSource { runtime_dir, python } => {
                let mut env = faster_whisper_env_exec(
                    auth_token,
                    selected_model,
                    options,
                    model_root,
                );
                let ghost before = env_view(env@);
                env.push((owned("VOICE_TYPER_PORT"), port_str));
                assert(env_view(env@) =~= before.push(("VOICE_TYPER_PORT"@, decimal(port as nat))));
                let mut args: Vec<String> = Vec::new();
                args.push(owned("run_sidecar.py"));
                assert(args_view(args@) =~= seq!["run_sidecar.py"@]);
                Launch { program: python.clone(), args, env, cwd: Some(runtime_dir.clone()) }
            },
            LaunchBuilder::Sherpad { binary } => {
                let mut env = sherpad_env_exec(auth_token, selected_model, options, model_root);
                let ghost before = env_view(env@);
                env.push((owned("VOICE_TYPER_PORT"), port_str));
                assert(env_view(env@) =~= before.push(("VOICE_TYPER_PORT"@, decimal(port as nat))));
                let args: Vec<String> = Vec::new();
                assert(args_view(args@) =~= Seq::<Seq<char>>::empty());
                Launch { program: binary.clone(), args, env, cwd: None }
            },
        }
    }

    pub fn duplicate(&self) -> (r: LaunchBuilder)
        ensures
            r@ == self@,
    {
        match self {
            LaunchBuilder::Packaged { exe_path, runtime_dir } => LaunchBuilder::Packaged {
                exe_path: exe_path.clone(),
                runtime_dir: runtime_dir.clone(),
            },
            LaunchBuilder::RawSource { runtime_dir, python } => LaunchBuilder::RawSource {
                runtime_dir: runtime_dir.clone(),
                python: python.clone(),
            },
            LaunchBuilder::Sherpad { binary } => LaunchBuilder::Sherpad { binary: binary.clone() },
        }
    }
}

/// Every launch tells the runtime its port last, binds loopback unless a
/// host was asked for, and (faster-whisper) names a model exactly when one
/// is selected.
pub proof fn law_launch_env_contract(
    b: LaunchBuilderView,
    port: u16,
    auth_token: Seq<char>,
    selected_model: Option<Seq<char>>,
    options: StartOptions,
    model_root: Seq<char>,
)
    ensures
        ({
            let env = spec_build(b, port, auth_token, selected_model, options, model_root).env;
            &&& env.len() > 2
            &&& env.last() == ("VOICE_TYPER_PORT"@, decimal(port as nat))
            &&& env[0] == ("VOICE_TYPER_HOST"@, bind_host_of(options))
            &&& options.bind_host is None ==> env[0].1 == "127.0.0.1"@
            &&& env[1] == ("VOICE_TYPER_AUTH_TOKEN"@, auth_token)
            &&& !(b is Sherpad) ==> (selected_model is Some <==> exists|i: int|
                0 <= i < env.len() && (#[trigger] env[i]).0 == "VOICE_TYPER_MODEL"@)
        }),
{
    let env = spec_build(b, port, auth_token, selected_model, options, model_root).env;
    if !(b is Sherpad) {
        reveal_strlit("VOICE_TYPER_MODEL");
        reveal_strlit("VOICE_TYPER_HOST");
        reveal_strlit("VOICE_TYPER_AUTH_TOKEN");
        reveal_strlit("VOICE_TYPER_MODEL_DIR");
        reveal_strlit("VOICE_TYPER_DEVICE");
        reveal_strlit("VOICE_TYPER_COMPUTE_TYPE");
        reveal_strlit("VOICE_TYPER_PORT");
        if selected_model is Some {
            assert(env[2].0 == "VOICE_TYPER_MODEL"@);
        } else {
            assert forall|i: int| 0 <= i < env.len() implies (#[trigger] env[i]).0
                != "VOICE_TYPER_MODEL"@ by {
                let k = env[i].0;
                if k == "VOICE_TYPER_MODEL"@ {
                    assert(k.len() == 17);
                    assert(k[12] == 'M');
                }
            }
        }
    }
}

} // verus!
