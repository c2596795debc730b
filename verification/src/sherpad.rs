//! The `sherpad` runtime's model registry and request decisions: which
//! curated models are installed or loaded (and in which language), the
//! default model a bare request resolves to, health and config answers,
//! and the bearer-token rule. Loading recognizers, decoding audio and
//! serving HTTP are the caller's part.
use vstd::prelude::*;

use crate::assoc::{find_key, keys_unique, pairs, table, table_get, table_insert, table_remove};
use crate::config::{join_path, opt_view};
use crate::manifest::{find, manifest_entry, manifest_has, spec_models, ModelEntry, ModelEntryView};
use crate::text::{concat, owned, str_eq, strip_suffix};

verus! {

/// Where a known model stands: extracted on disk, or also loaded into a
/// recognizer built for a language.
#[derive(Debug)]
pub enum ModelSlot {
    Installed { dir: String },
    Loaded { dir: String, language: String },
}

pub enum SlotView {
    Installed { dir: Seq<char> },
    Loaded { dir: Seq<char>, language: Seq<char> },
}

impl View for ModelSlot {
    type V = SlotView;

    open spec fn view(&self) -> SlotView {
        match self {
            ModelSlot::Installed { dir } => SlotView::Installed { dir: dir@ },
            ModelSlot::Loaded { dir, language } => SlotView::Loaded {
                dir: dir@,
                language: language@,
            },
        }
    }
}

/// An API error: 404, 400 or 500, with its message.
#[derive(Debug)]
pub enum ApiError {
    NotFound(String),
    BadRequest(String),
    Internal(String),
}

impl ApiError {
    /// The HTTP status the error is answered with.
    pub fn status(&self) -> (r: u16)
        ensures
            r == match self {
                ApiError::NotFound(_) => 404u16,
                ApiError::BadRequest(_) => 400u16,
                ApiError::Internal(_) => 500u16,
            },
    {
        match self {
            ApiError::NotFound(_) => 404,
            ApiError::BadRequest(_) => 400,
            ApiError::Internal(_) => 500,
        }
    }
}

pub open spec fn unknown_model_msg(id: Seq<char>) -> Seq<char> {
    "unknown model id '"@ + id + "'"@
}

pub open spec fn not_installed_msg(id: Seq<char>) -> Seq<char> {
    "model '"@ + id + "' is not installed; POST /v1/models/"@ + id + "/pull first"@
}

fn unknown_model(id: &str) -> (r: ApiError)
    ensures
        r matches ApiError::NotFound(m) && m@ == unknown_model_msg(id@),
{
    let mut m = concat("unknown model id '", id);
    m.append("'");
    ApiError::NotFound(m)
}

fn not_installed(id: &str) -> (r: ApiError)
    ensures
        r matches ApiError::BadRequest(m) && m@ == not_installed_msg(id@),
{
    let mut m = concat("model '", id);
    m.append("' is not installed; POST /v1/models/");
    m.append(id);
    m.append("/pull first");
    ApiError::BadRequest(m)
}

/// The catalog entry of `id`; `NotFound` for an id the manifest lacks.
pub fn find_entry(id: &str) -> (r: Result<ModelEntry, ApiError>)
    ensures
        match r {
            Ok(e) => manifest_has(id@) && e@ == manifest_entry(id@),
            Err(e) => !manifest_has(id@) && (e matches ApiError::NotFound(m) && m@ == unknown_model_msg(
                id@,
            )),
        },
{
    match find(id) {
        Some(e) => Ok(e),
        None => Err(unknown_model(id)),
    }
}

/// What to do to have a model loaded.
#[derive(Debug)]
pub enum LoadStep {
    /// It already is.
    AlreadyLoaded,
    /// Build a recognizer from `dir` for `language`, then record it.
    Build { dir: String, language: String },
}

/// What a health probe answers.
#[derive(Debug)]
pub struct HealthAnswer {
    /// 200 when ready, 503 otherwise.
    pub http_status: u16,
    pub status: &'static str,
    pub model: String,
}

/// What a language change needs.
#[derive(Debug)]
pub enum LanguageStep {
    /// The recognizer already serves that language.
    Unchanged,
    /// Rebuild the recognizer from `dir` for `language`.
    Rebuild { dir: String, language: String },
}

/// What switching the default model needs.
#[derive(Debug)]
pub enum SwitchStep {
    /// The model was loaded; it is now the default (no reload).
    Switched,
    /// Load it first (from `dir`, for `language`), then switch again.
    LoadFirst { dir: String, language: String },
}

/// One model of `GET /v1/models`.
#[derive(Debug)]
pub struct ModelView {
    pub id: &'static str,
    pub description: &'static str,
    pub languages: Vec<&'static str>,
    pub download_bytes: u64,
    pub status: &'static str,
}

/// The registry and settings of a running `sherpad`.
pub struct SherpadState {
    models_dir: String,
    tmp_dir: String,
    registry: Vec<(String, ModelSlot)>,
    default_model: Option<String>,
    auth_token: Option<String>,
}

pub open spec fn is_loaded(m: Map<Seq<char>, SlotView>, id: Seq<char>) -> bool {
    m.contains_key(id) && m[id] is Loaded
}

pub open spec fn slot_dir(s: SlotView) -> Seq<char> {
    match s {
        SlotView::Installed { dir } => dir,
        SlotView::Loaded { dir, .. } => dir,
    }
}

impl SherpadState {
    pub closed spec fn wf(&self) -> bool {
        keys_unique(pairs(self.registry@))
    }

    /// Known models by id.
    pub closed spec fn models(&self) -> Map<Seq<char>, SlotView> {
        table(self.registry@)
    }

    /// The model a bare request resolves to.
    pub closed spec fn default_model_view(&self) -> Option<Seq<char>> {
        opt_view(self.default_model)
    }

    pub closed spec fn models_dir_view(&self) -> Seq<char> {
        self.models_dir@
    }

    /// Where scratch files of a request go.
    pub closed spec fn tmp_dir_view(&self) -> Seq<char> {
        self.tmp_dir@
    }

    pub closed spec fn auth_token_view(&self) -> Option<Seq<char>> {
        opt_view(self.auth_token)
    }

    /// A state with no model known.
    pub fn new(
        models_dir: String,
        tmp_dir: String,
        default_model: Option<String>,
        auth_token: Option<String>,
    ) -> (r: SherpadState)
        ensures
            r.wf(),
            r.models() == Map::<Seq<char>, SlotView>::empty(),
            r.default_model_view() == opt_view(default_model),
            r.auth_token_view() == opt_view(auth_token),
            r.models_dir_view() == models_dir@,
            r.tmp_dir_view() == tmp_dir@,
    {
        let r = SherpadState { models_dir, tmp_dir, registry: Vec::new(), default_model, auth_token };
        assert(r.models() =~= Map::<Seq<char>, SlotView>::empty());
        r
    }

    /// The configured auth token, if any.
    pub fn auth_token(&self) -> (r: Option<&str>)
        ensures
            match r {
                Some(t) => self.auth_token_view() == Some(t@),
                None => self.auth_token_view() is None,
            },
    {
        match &self.auth_token {
            Some(t) => Some(t.as_str()),
            None => None,
        }
    }

    /// The default model, if any.
    pub fn default_model(&self) -> (r: Option<String>)
        ensures
            opt_view(r) == self.default_model_view(),
    {
        match &self.default_model {
            Some(m) => Some(m.clone()),
            None => None,
        }
    }

    /// Where scratch files of a request go.
    pub fn tmp_dir(&self) -> (r: &str)
        ensures
            r@ == self.tmp_dir_view(),
    {
        self.tmp_dir.as_str()
    }

    /// `<models dir>/<id>`: where a model is extracted.
    pub fn install_dir(&self, id: &str) -> (r: String)
        ensures
            r@ == crate::config::path_join(self.models_dir_view(), id@),
    {
        join_path(self.models_dir.as_str(), id)
    }

    /// Records a model as extracted at `dir` (not loaded), replacing
    /// whatever was known of it.
    pub fn record_installed(&mut self, id: &str, dir: String)
        requires
            old(self).wf(),
        ensures
            final(self).wf(),
            final(self).models() == old(self).models().insert(id@, SlotView::Installed { dir: dir@ }),
            final(self).default_model_view() == old(self).default_model_view(),
            final(self).models_dir_view() == old(self).models_dir_view(),
            final(self).tmp_dir_view() == old(self).tmp_dir_view(),
            final(self).auth_token_view() == old(self).auth_token_view(),
    {
        table_insert(&mut self.registry, owned(id), ModelSlot::Installed { dir });
    }

    /// Records a recognizer for a model, built from `dir` for `language`.
    pub fn record_loaded(&mut self, id: &str, dir: String, language: String)
        requires
            old(self).wf(),
        ensures
            final(self).wf(),
            final(self).models() == old(self).models().insert(
                id@,
                SlotView::Loaded { dir: dir@, language: language@ },
            ),
            final(self).default_model_view() == old(self).default_model_view(),
            final(self).models_dir_view() == old(self).models_dir_view(),
            final(self).tmp_dir_view() == old(self).tmp_dir_view(),
            final(self).auth_token_view() == old(self).auth_token_view(),
    {
        table_insert(&mut self.registry, owned(id), ModelSlot::Loaded { dir, language });
    }

    /// Whether `id` has a loaded recognizer.
    pub fn is_model_loaded(&self, id: &str) -> (r: bool)
        requires
            self.wf(),
        ensures
            r == is_loaded(self.models(), id@),
    {
        match table_get(&self.registry, id) {
            Some(ModelSlot::Loaded { .. }) => true,
            _ => false,
        }
    }

    /// `GET /health`: ready (200, `ok`) when there is no default model or
    /// it is loaded; otherwise 503 `model_not_loaded`. Names the default
    /// model (empty when none).
    pub fn health(&self) -> (r: HealthAnswer)
        requires
            self.wf(),
        ensures
            r.model@ == (match self.default_model_view() {
                Some(m) => m,
                None => Seq::<char>::empty(),
            }),
            (match self.default_model_view() {
                Some(m) => is_loaded(self.models(), m),
                None => true,
            }) ==> r.http_status == 200 && r.status@ == "ok"@,
            !(match self.default_model_view() {
                Some(m) => is_loaded(self.models(), m),
                None => true,
            }) ==> r.http_status == 503 && r.status@ == "model_not_loaded"@,
    {
        match &self.default_model {
            None => HealthAnswer { http_status: 200, status: "ok", model: String::new() },
            Some(m) => {
                if self.is_model_loaded(m.as_str()) {
                    HealthAnswer { http_status: 200, status: "ok", model: m.clone() }
                } else {
                    HealthAnswer { http_status: 503, status: "model_not_loaded", model: m.clone() }
                }
            },
        }
    }

    /// `GET /v1/config`: the default model (empty when none) and whether it
    /// is loaded.
    pub fn config(&self) -> (r: (String, bool))
        requires
            self.wf(),
        ensures
            r.0@ == (match self.default_model_view() {
                Some(m) => m,
                None => Seq::<char>::empty(),
            }),
            r.1 == (match self.default_model_view() {
                Some(m) => is_loaded(self.models(), m),
                None => false,
            }),
    {
        match &self.default_model {
            None => (String::new(), false),
            Some(m) => (m.clone(), self.is_model_loaded(m.as_str())),
        }
    }

    /// Every curated model with its status: `loaded`, `installed` or
    /// `available`.
    pub fn model_views(&self) -> (r: Vec<ModelView>)
        requires
            self.wf(),
        ensures
            r@.len() == spec_models().len(),
            forall|i: int|
                0 <= i < r@.len() ==> {
                    let v = #[trigger] r@[i];
                    let e = spec_models()[i];
                    &&& v.id@ == e.id
                    &&& v.description@ == e.description
                    &&& crate::manifest::str_seq_view(v.languages@) == e.languages
                    &&& v.download_bytes == e.download_bytes
                    &&& v.status@ == (if !self.models().contains_key(e.id) {
                        "available"@
                    } else if self.models()[e.id] is Loaded {
                        "loaded"@
                    } else {
                        "installed"@
                    })
                },
    {
        let all = crate::manifest::models();
        let mut out: Vec<ModelView> = Vec::new();
        let mut i: usize = 0;
        while i < all.len()
            invariant
                self.wf(),
                all@.map_values(|m: ModelEntry| m@) == spec_models(),
                i <= all@.len(),
                out@.len() == i,
                forall|k: int|
                    0 <= k < i ==> {
                        let v = #[trigger] out@[k];
                        let e = spec_models()[k];
                        &&& v.id@ == e.id
                        &&& v.description@ == e.description
                        &&& crate::manifest::str_seq_view(v.languages@) == e.languages
                        &&& v.download_bytes == e.download_bytes
                        &&& v.status@ == (if !self.models().contains_key(e.id) {
                            "available"@
                        } else if self.models()[e.id] is Loaded {
                            "loaded"@
                        } else {
                            "installed"@
                        })
                    },
            decreases all.len() - i,
        {
            let m = &all[i];
            assert(all@.map_values(|m: ModelEntry| m@)[i as int] == m@);
            let status: &'static str = match table_get(&self.registry, m.id) {
                Some(ModelSlot::Loaded { .. }) => "loaded",
                Some(ModelSlot::Installed { .. }) => "installed",
                None => "available",
            };
            out.push(
                ModelView {
                    id: m.id,
                    description: m.description,
                    languages: m.languages.clone(),
                    download_bytes: m.download_bytes,
                    status,
                },
            );
            i += 1;
        }
        out
    }

    /// The ids of the loaded models.
    pub fn loaded_ids(&self) -> (r: Vec<String>)
        requires
            self.wf(),
        ensures
            forall|a: int| 0 <= a < r@.len() ==> is_loaded(self.models(), (#[trigger] r@[a])@),
            forall|k: Seq<char>|
                is_loaded(self.models(), k) ==> exists|a: int| 0 <= a < r@.len() && (#[trigger] r@[a])@
                    == k,
    {
        let mut out: Vec<String> = Vec::new();
        let mut i: usize = 0;
        while i < self.registry.len()
            invariant
                self.wf(),
                i <= self.registry@.len(),
                forall|a: int| 0 <= a < out@.len() ==> is_loaded(self.models(), (#[trigger] out@[a])@),
                forall|j: int|
                    0 <= j < i && (#[trigger] self.registry@[j]).1 is Loaded ==> exists|a: int|
                        0 <= a < out@.len() && (#[trigger] out@[a])@ == self.registry@[j].0@,
            decreases self.registry.len() - i,
        {
            proof {
                crate::assoc::lemma_as_map_at(pairs(self.registry@), i as int);
            }
            if let ModelSlot::Loaded { .. } = &self.registry[i].1 {
                let ghost before = out@;
                out.push(self.registry[i].0.clone());
                proof {
                    assert forall|j: int|
                        0 <= j < i + 1 && (#[trigger] self.registry@[j]).1 is Loaded implies exists|a: int|
                            0 <= a < out@.len() && (#[trigger] out@[a])@ == self.registry@[j].0@ by {
                        if j < i {
                            let a = choose|a: int|
                                0 <= a < before.len() && (#[trigger] before[a])@ == self.registry@[j].0@;
                            assert(out@[a] == before[a]);
                        } else {
                            assert(out@[before.len() as int]@ == self.registry@[j].0@);
                        }
                    }
                }
            }
            i += 1;
        }
        proof {
            assert forall|k: Seq<char>| is_loaded(self.models(), k) implies exists|a: int|
                0 <= a < out@.len() && (#[trigger] out@[a])@ == k by {
                let j = choose|j: int|
                    0 <= j < pairs(self.registry@).len() && (#[trigger] pairs(self.registry@)[j]).0 == k;
                crate::assoc::lemma_as_map_at(pairs(self.registry@), j);
                assert(self.registry@[j].0@ == k);
                assert(self.registry@[j].1 is Loaded);
            }
        }
        out
    }

    /// What loading `id` needs: `NotFound` for an unknown id, `BadRequest`
    /// when it is not installed; nothing when it is loaded; otherwise a
    /// build from its directory in its default language.
    pub fn load_step(&self, id: &str) -> (r: Result<LoadStep, ApiError>)
        requires
            self.wf(),
        ensures
            !manifest_has(id@) ==> (r matches Err(ApiError::NotFound(m)) && m@ == unknown_model_msg(
                id@,
            )),
            manifest_has(id@) ==> match opt_slot(self.models(), id@) {
                None => r matches Err(ApiError::BadRequest(m)) && m@ == not_installed_msg(id@),
                Some(SlotView::Loaded { .. }) => r matches Ok(LoadStep::AlreadyLoaded),
                Some(SlotView::Installed { dir }) => r matches Ok(LoadStep::Build { dir: d, language })
                    && d@ == dir && language@ == manifest_entry(id@).default_language,
            },
    {
        let entry = match find_entry(id) {
            Ok(e) => e,
            Err(e) => return Err(e),
        };
        match table_get(&self.registry, id) {
            Some(ModelSlot::Loaded { .. }) => Ok(LoadStep::AlreadyLoaded),
            Some(ModelSlot::Installed { dir }) => Ok(
                LoadStep::Build { dir: dir.clone(), language: owned(entry.default_language) },
            ),
            None => Err(not_installed(id)),
        }
    }

    /// `POST /v1/models/{id}/pull` after the archive was extracted to
    /// `dir`: `NotFound` for an unknown id; otherwise the model is recorded
    /// as installed.
    pub fn record_pulled(&mut self, id: &str, dir: String) -> (r: Result<(), ApiError>)
        requires
            old(self).wf(),
        ensures
            final(self).wf(),
            final(self).default_model_view() == old(self).default_model_view(),
            final(self).models_dir_view() == old(self).models_dir_view(),
            final(self).tmp_dir_view() == old(self).tmp_dir_view(),
            final(self).auth_token_view() == old(self).auth_token_view(),
            match r {
                Ok(()) => manifest_has(id@) && final(self).models() == old(self).models().insert(
                    id@,
                    SlotView::Installed { dir: dir@ },
                ),
                Err(e) => !manifest_has(id@) && (e matches ApiError::NotFound(m) && m@
                    == unknown_model_msg(id@)) && final(self).models() == old(self).models(),
            },
    {
        match find_entry(id) {
            Ok(_) => {},
            Err(e) => return Err(e),
        }
        self.record_installed(id, dir);
        Ok(())
    }

    /// `DELETE /v1/models/{id}`: `NotFound` for an unknown id; otherwise it
    /// is forgotten (the caller then removes its directory).
    pub fn delete_model(&mut self, id: &str) -> (r: Result<(), ApiError>)
        requires
            old(self).wf(),
        ensures
            final(self).wf(),
            final(self).default_model_view() == old(self).default_model_view(),
            final(self).models_dir_view() == old(self).models_dir_view(),
            final(self).tmp_dir_view() == old(self).tmp_dir_view(),
            final(self).auth_token_view() == old(self).auth_token_view(),
            match r {
                Ok(()) => manifest_has(id@) && final(self).models() == old(self).models().remove(id@),
                Err(e) => !manifest_has(id@) && (e matches ApiError::NotFound(m) && m@
                    == unknown_model_msg(id@)) && final(self).models() == old(self).models(),
            },
    {
        match find_entry(id) {
            Ok(_) => {},
            Err(e) => return Err(e),
        }
        let _ = table_remove(&mut self.registry, id);
        Ok(())
    }

    /// `POST /v1/models/{id}/unload`: `NotFound` when `id` is not installed;
    /// `BadRequest` when it is the loaded default model (a bare request
    /// resolves to it); otherwise it ends up installed, not loaded.
    pub fn unload(&mut self, id: &str) -> (r: Result<(), ApiError>)
        requires
            old(self).wf(),
        ensures
            final(self).wf(),
            final(self).default_model_view() == old(self).default_model_view(),
            final(self).models_dir_view() == old(self).models_dir_view(),
            final(self).tmp_dir_view() == old(self).tmp_dir_view(),
            final(self).auth_token_view() == old(self).auth_token_view(),
            match opt_slot(old(self).models(), id@) {
                None => (r matches Err(ApiError::NotFound(m)) && m@ == "model '"@ + id@
                    + "' is not installed"@) && final(self).models() == old(self).models(),
                Some(SlotView::Installed { .. }) => r is Ok && final(self).models() == old(
                    self,
                ).models(),
                Some(SlotView::Loaded { dir, .. }) => if old(self).default_model_view() == Some(
                    id@,
                ) {
                    (r matches Err(ApiError::BadRequest(m)) && m@ == "model '"@ + id@
                        + "' is the default model and cannot be unloaded"@) && final(self).models()
                        == old(self).models()
                } else {
                    r is Ok && final(self).models() == old(self).models().insert(
                        id@,
                        SlotView::Installed { dir },
                    )
                },
            },
    {
        let dir = match table_get(&self.registry, id) {
            None => {
                let mut m = concat("model '", id);
                m.append("' is not installed");
                return Err(ApiError::NotFound(m));
            },
            Some(ModelSlot::Installed { .. }) => return Ok(()),
            Some(ModelSlot::Loaded { dir, .. }) => dir.clone(),
        };
        let is_default = match &self.default_model {
            Some(m) => str_eq(m.as_str(), id),
            None => false,
        };
        if is_default {
            let mut m = concat("model '", id);
            m.append("' is the default model and cannot be unloaded");
            return Err(ApiError::BadRequest(m));
        }
        self.record_installed(id, dir);
        Ok(())
    }

    /// `POST /v1/models/{id}/language`: `NotFound` for an unknown id,
    /// `BadRequest` for a language the model does not cover or a model not
    /// installed; unchanged when its recognizer already serves that
    /// language; otherwise a rebuild for it.
    pub fn language_step(&self, id: &str, language: &str) -> (r: Result<LanguageStep, ApiError>)
        requires
            self.wf(),
        ensures
            !manifest_has(id@) ==> (r matches Err(ApiError::NotFound(m)) && m@ == unknown_model_msg(
                id@,
            )),
            manifest_has(id@) && !manifest_entry(id@).languages.contains(language@) ==> (r matches Err(
                ApiError::BadRequest(m),
            ) && m@ == "model '"@ + id@ + "' does not support language '"@ + language@ + "'"@),
            manifest_has(id@) && manifest_entry(id@).languages.contains(language@) ==> match opt_slot(
                self.models(),
                id@,
            ) {
                None => r matches Err(ApiError::BadRequest(m)) && m@ == not_installed_msg(id@),
                Some(SlotView::Loaded { dir, language: current }) => if current == language@ {
                    r matches Ok(LanguageStep::Unchanged)
                } else {
                    r matches Ok(LanguageStep::Rebuild { dir: d, language: l }) && d@ == dir && l@
                        == language@
                },
                Some(SlotView::Installed { dir }) => r matches Ok(
                    LanguageStep::Rebuild { dir: d, language: l },
                ) && d@ == dir && l@ == language@,
            },
    {
        let entry = match find_entry(id) {
            Ok(e) => e,
            Err(e) => return Err(e),
        };
        let mut supported = false;
        let mut i: usize = 0;
        while i < entry.languages.len()
            invariant
                i <= entry.languages@.len(),
                supported == exists|j: int|
                    0 <= j < i && (#[trigger] entry.languages@[j])@ == language@,
            decreases entry.languages.len() - i,
        {
            if str_eq(entry.languages[i], language) {
                supported = true;
            }
            i += 1;
        }
        proof {
            let lv = crate::manifest::str_seq_view(entry.languages@);
            if supported {
                let j = choose|j: int| 0 <= j < i && (#[trigger] entry.languages@[j])@ == language@;
                assert(lv[j] == language@);
            }
            if lv.contains(language@) {
                let j = choose|j: int| 0 <= j < lv.len() && lv[j] == language@;
                assert(entry.languages@[j]@ == language@);
            }
        }
        if !supported {
            let mut m = concat("model '", id);
            m.append("' does not support language '");
            m.append(language);
            m.append("'");
            return Err(ApiError::BadRequest(m));
        }
        match table_get(&self.registry, id) {
            None => Err(not_installed(id)),
            Some(ModelSlot::Loaded { dir, language: current }) => {
                if str_eq(current.as_str(), language) {
                    Ok(LanguageStep::Unchanged)
                } else {
                    Ok(LanguageStep::Rebuild { dir: dir.clone(), language: owned(language) })
                }
            },
            Some(ModelSlot::Installed { dir }) => Ok(
                LanguageStep::Rebuild { dir: dir.clone(), language: owned(language) },
            ),
        }
    }

    /// `POST /v1/admin/model`: `NotFound` for an unknown id, `BadRequest`
    /// when it is not installed. A loaded model simply becomes the default
    /// (no reload); an installed one must be loaded first.
    pub fn switch_default(&mut self, id: &str) -> (r: Result<SwitchStep, ApiError>)
        requires
            old(self).wf(),
        ensures
            final(self).wf(),
            final(self).models() == old(self).models(),
            final(self).models_dir_view() == old(self).models_dir_view(),
            final(self).tmp_dir_view() == old(self).tmp_dir_view(),
            final(self).auth_token_view() == old(self).auth_token_view(),
            !manifest_has(id@) ==> (r matches Err(ApiError::NotFound(m)) && m@ == unknown_model_msg(
                id@,
            )),
            r is Ok && r->Ok_0 is Switched ==> final(self).default_model_view() == Some(id@),
            !(r is Ok && r->Ok_0 is Switched) ==> final(self).default_model_view() == old(
                self,
            ).default_model_view(),
            manifest_has(id@) ==> match opt_slot(old(self).models(), id@) {
                None => r matches Err(ApiError::BadRequest(m)) && m@ == not_installed_msg(id@),
                Some(SlotView::Loaded { .. }) => r matches Ok(SwitchStep::Switched),
                Some(SlotView::Installed { dir }) => r matches Ok(
                    SwitchStep::LoadFirst { dir: d, language },
                ) && d@ == dir && language@ == manifest_entry(id@).default_language,
            },
    {
        match self.load_step(id) {
            Err(e) => Err(e),
            Ok(LoadStep::AlreadyLoaded) => {
                self.default_model = Some(owned(id));
                Ok(SwitchStep::Switched)
            },
            Ok(LoadStep::Build { dir, language }) => Ok(SwitchStep::LoadFirst { dir, language }),
        }
    }

    /// The model a transcription is for: the request's own `model` field,
    /// else the default; `BadRequest` when neither is there.
    pub fn resolve_model(&self, requested: Option<String>) -> (r: Result<String, ApiError>)
        ensures
            match requested {
                Some(m) => r matches Ok(x) && x@ == m@,
                None => match self.default_model_view() {
                    Some(d) => r matches Ok(x) && x@ == d,
                    None => r matches Err(ApiError::BadRequest(m)) && m@
                        == "no 'model' field given and this instance has no default model configured"@,
                },
            },
    {
        match requested {
            Some(m) => Ok(m),
            None => match &self.default_model {
                Some(d) => Ok(d.clone()),
                None => Err(
                    ApiError::BadRequest(
                        owned(
                            "no 'model' field given and this instance has no default model configured",
                        ),
                    ),
                ),
            },
        }
    }
}

/// The slot of `id`, if known.
pub open spec fn opt_slot(m: Map<Seq<char>, SlotView>, id: Seq<char>) -> Option<SlotView> {
    if m.contains_key(id) {
        Some(m[id])
    } else {
        None
    }
}

/// Whether a request is a browser CORS preflight: an `OPTIONS` request
/// carrying both `Origin` and `Access-Control-Request-Method`.
pub fn is_cors_preflight(is_options: bool, has_origin: bool, has_request_method: bool) -> (r: bool)
    ensures
        r == (is_options && has_origin && has_request_method),
{
    is_options && has_origin && has_request_method
}

/// The bearer rule every route is under: preflights pass, everything
/// passes when no token is configured, otherwise the `Authorization`
/// header must be exactly `Bearer <token>`.
pub fn authorized(expected: Option<&str>, preflight: bool, authorization: Option<&str>) -> (r: bool)
    ensures
        r == (preflight || match expected {
            None => true,
            Some(t) => match authorization {
                Some(h) => h@ == "Bearer "@ + t@,
                None => false,
            },
        }),
{
    if preflight {
        return true;
    }
    let t = match expected {
        None => return true,
        Some(t) => t,
    };
    match authorization {
        Some(h) => {
            let want = concat("Bearer ", t);
            str_eq(h, want.as_str())
        },
        None => false,
    }
}

/// Transcription parameters read from a multipart form.
#[derive(Debug)]
pub struct TranscribeParams {
    pub model: Option<String>,
    pub response_format: String,
    pub want_word_timestamps: bool,
}

impl TranscribeParams {
    /// No `model`, `json` format, no word timestamps.
    pub fn new() -> (r: TranscribeParams)
        ensures
            r.model is None,
            r.response_format@ == "json"@,
            !r.want_word_timestamps,
    {
        TranscribeParams { model: None, response_format: owned("json"), want_word_timestamps: false }
    }

    /// Applies one text field of the form (`text` is `None` when it could
    /// not be read as text): `model` sets the model (empty when unreadable),
    /// `response_format` the format (`json` when unreadable), and
    /// `timestamp_granularities[]` with value `word` asks for word
    /// timestamps. Other fields are ignored.
    pub fn apply_field(&mut self, name: &str, text: Option<String>)
        ensures
            name@ == "model"@ ==> opt_view(final(self).model) == Some(match text {
                Some(t) => t@,
                None => Seq::<char>::empty(),
            }) && final(self).response_format@ == old(self).response_format@
                && final(self).want_word_timestamps == old(self).want_word_timestamps,
            name@ == "response_format"@ ==> final(self).response_format@ == (match text {
                Some(t) => t@,
                None => "json"@,
            }) && opt_view(final(self).model) == opt_view(old(self).model)
                && final(self).want_word_timestamps == old(self).want_word_timestamps,
            name@ == "timestamp_granularities[]"@ ==> final(self).want_word_timestamps == (old(
                self,
            ).want_word_timestamps || (text matches Some(t) && t@ == "word"@)) && opt_view(
                final(self).model,
            ) == opt_view(old(self).model) && final(self).response_format@ == old(
                self,
            ).response_format@,
            name@ != "model"@ && name@ != "response_format"@ && name@
                != "timestamp_granularities[]"@ ==> opt_view(final(self).model) == opt_view(
                old(self).model,
            ) && final(self).response_format@ == old(self).response_format@
                && final(self).want_word_timestamps == old(self).want_word_timestamps,
    {
        proof {
            reveal_strlit("model");
            reveal_strlit("response_format");
            reveal_strlit("timestamp_granularities[]");
            assert("response_format"@.len() == 15);
            assert("model"@.len() == 5);
            assert("timestamp_granularities[]"@.len() == 25);
        }
        if str_eq(name, "model") {
            self.model = Some(
                match text {
                    Some(t) => t,
                    None => String::new(),
                },
            );
        } else if str_eq(name, "response_format") {
            self.response_format = match text {
                Some(t) => t,
                None => owned("json"),
            };
        } else if str_eq(name, "timestamp_granularities[]") {
            let is_word = match &text {
                Some(t) => str_eq(t.as_str(), "word"),
                None => false,
            };
            if is_word {
                self.want_word_timestamps = true;
            }
        }
    }

    /// Whether the bare-text response format was asked for.
    pub fn wants_text(&self) -> (r: bool)
        ensures
            r == (self.response_format@ == "text"@),
    {
        str_eq(self.response_format.as_str(), "text")
    }
}

/// The `language` a JSON transcription reports for a model: its default
/// language, or nothing for an auto-detecting model.
pub fn response_language(entry: &ModelEntry) -> (r: Option<&'static str>)
    ensures
        match r {
            Some(l) => entry@.default_language != "auto"@ && l@ == entry@.default_language,
            None => entry@.default_language == "auto"@,
        },
{
    if str_eq(entry.default_language, "auto") {
        None
    } else {
        Some(entry.default_language)
    }
}

/// The request had no `file` field.
pub fn missing_file() -> (r: ApiError)
    ensures
        r matches ApiError::BadRequest(m) && m@ == "missing 'file' field"@,
{
    ApiError::BadRequest(owned("missing 'file' field"))
}

} // verus!
