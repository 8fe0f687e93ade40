//! Choosing the AI backend the engine uses, from configuration.

use vstd::prelude::*;

use crate::text::{concat_str, str_eq, trim_chars, trim_str};

verus! {

/// What `str::to_lowercase` gives for `s`.
pub uninterp spec fn lower_of(s: Seq<char>) -> Seq<char>;

/// Relies on `str::to_lowercase`: the result depends on the characters alone.
#[verifier::external_body]
fn lowercase(s: &str) -> (r: String)
    ensures
        r@ == lower_of(s@),
{
    s.to_lowercase()
}

/// The backend names that select the local in-process model.
pub const LOCAL_BACKEND_NAME: &'static str = "omnix-mlx";

pub const LOCAL_BACKEND_SHORT_NAME: &'static str = "omnix";

pub const LOCAL_BACKEND_MODEL_NAME: &'static str = "mlx";

/// The provider names the remote backend accepts.
pub const PROVIDER_OPENAI: &'static str = "openai";

pub const PROVIDER_CHATGPT: &'static str = "chatgpt";

pub const PROVIDER_DEEPSEEK: &'static str = "deepseek";

/// Put before the model directory to label a local backend.
pub const LOCAL_LABEL_PREFIX: &'static str = "omnix-mlx:qwen3@";

/// The label of the local backend when it cannot be had.
pub const LOCAL_UNAVAILABLE_LABEL: &'static str = "omnix-mlx:unavailable";

/// A remote AI provider.
#[derive(Clone, Copy, Debug, PartialEq, Eq, Structural)]
pub enum AiProvider {
    OpenAI,
    DeepSeek,
}

/// The provider a lower-case provider name stands for, if any.
pub open spec fn provider_named(name: Seq<char>) -> Option<AiProvider> {
    if name == PROVIDER_OPENAI@ || name == PROVIDER_CHATGPT@ {
        Some(AiProvider::OpenAI)
    } else if name == PROVIDER_DEEPSEEK@ {
        Some(AiProvider::DeepSeek)
    } else {
        None
    }
}

/// The provider a lower-case provider name stands for: `openai` and `chatgpt`
/// for OpenAI, `deepseek` for DeepSeek.
pub fn provider_from_name(name: &str) -> (r: Option<AiProvider>)
    ensures
        r == provider_named(name@),
{
    if str_eq(name, PROVIDER_OPENAI) || str_eq(name, PROVIDER_CHATGPT) {
        Some(AiProvider::OpenAI)
    } else if str_eq(name, PROVIDER_DEEPSEEK) {
        Some(AiProvider::DeepSeek)
    } else {
        None
    }
}

/// Whether a lower-case backend name selects the local model.
pub open spec fn is_local_backend_name(name: Seq<char>) -> bool {
    name == LOCAL_BACKEND_NAME@ || name == LOCAL_BACKEND_SHORT_NAME@ || name
        == LOCAL_BACKEND_MODEL_NAME@
}

/// Whether a lower-case backend name selects the local model: `omnix-mlx`,
/// `omnix` or `mlx`. Any other name selects the remote family.
pub fn is_local_backend(name: &str) -> (r: bool)
    ensures
        r == is_local_backend_name(name@),
{
    str_eq(name, LOCAL_BACKEND_NAME) || str_eq(name, LOCAL_BACKEND_SHORT_NAME) || str_eq(
        name,
        LOCAL_BACKEND_MODEL_NAME,
    )
}

/// The resolved backend configuration. Sampling temperatures are left to the
/// code that builds the clients.
#[derive(Clone, Debug, PartialEq, Eq)]
pub struct BackendSettings {
    /// Which family: a local model name, or anything else for remote.
    pub backend: String,
    pub provider: String,
    pub model: String,
    pub api_key: String,
    pub base_url: Option<String>,
    pub local_model_dir: String,
    pub local_max_tokens: usize,
}

pub struct SettingsView {
    pub backend: Seq<char>,
    pub provider: Seq<char>,
    pub model: Seq<char>,
    pub api_key: Seq<char>,
    pub base_url: Option<Seq<char>>,
    pub local_model_dir: Seq<char>,
    pub local_max_tokens: usize,
}

impl View for BackendSettings {
    type V = SettingsView;

    open spec fn view(&self) -> SettingsView {
        SettingsView {
            backend: self.backend@,
            provider: self.provider@,
            model: self.model@,
            api_key: self.api_key@,
            base_url: self.base_url.deep_view(),
            local_model_dir: self.local_model_dir@,
            local_max_tokens: self.local_max_tokens,
        }
    }
}

/// A remote client to build.
#[derive(Clone, Debug, PartialEq, Eq)]
pub struct RemoteBackend {
    pub provider: AiProvider,
    pub api_key: String,
    pub model: String,
    pub base_url: Option<String>,
}

pub struct RemoteView {
    pub provider: AiProvider,
    pub api_key: Seq<char>,
    pub model: Seq<char>,
    pub base_url: Option<Seq<char>>,
}

impl View for RemoteBackend {
    type V = RemoteView;

    open spec fn view(&self) -> RemoteView {
        RemoteView {
            provider: self.provider,
            api_key: self.api_key@,
            model: self.model@,
            base_url: self.base_url.deep_view(),
        }
    }
}

/// Why the remote backend is disabled by configuration.
#[derive(Clone, Debug, PartialEq, Eq)]
pub enum BackendDisabled {
    EmptyModel,
    EmptyApiKey,
    /// The lower-cased provider name that was not recognised.
    UnknownProvider(String),
}

pub enum DisabledView {
    EmptyModel,
    EmptyApiKey,
    UnknownProvider(Seq<char>),
}

impl View for BackendDisabled {
    type V = DisabledView;

    open spec fn view(&self) -> DisabledView {
        match self {
            BackendDisabled::EmptyModel => DisabledView::EmptyModel,
            BackendDisabled::EmptyApiKey => DisabledView::EmptyApiKey,
            BackendDisabled::UnknownProvider(p) => DisabledView::UnknownProvider(p@),
        }
    }
}

/// The remote backend the settings give, given the provider name once trimmed
/// and lower-cased.
pub open spec fn remote_choice(s: SettingsView, provider: Seq<char>) -> Result<
    RemoteView,
    DisabledView,
> {
    let model = trim_chars(s.model);
    let key = trim_chars(s.api_key);
    if model.len() == 0 {
        Err(DisabledView::EmptyModel)
    } else if key.len() == 0 {
        Err(DisabledView::EmptyApiKey)
    } else {
        match provider_named(provider) {
            Some(p) => Ok(RemoteView { provider: p, api_key: key, model, base_url: s.base_url }),
            None => Err(DisabledView::UnknownProvider(provider)),
        }
    }
}

/// Chooses the remote client to build, given the provider name already
/// trimmed and lower-cased. The model and the key are trimmed and must not be
/// empty; the provider must be one that [`provider_from_name`] knows.
pub fn remote_backend_for(settings: &BackendSettings, provider: &str) -> (r: Result<
    RemoteBackend,
    BackendDisabled,
>)
    ensures
        match r {
            Ok(b) => remote_choice(settings@, provider@) == Ok::<RemoteView, DisabledView>(b@),
            Err(e) => remote_choice(settings@, provider@) == Err::<RemoteView, DisabledView>(e@),
        },
{
    let model = trim_str(settings.model.as_str());
    if model.is_empty() {
        return Err(BackendDisabled::EmptyModel);
    }
    let key = trim_str(settings.api_key.as_str());
    if key.is_empty() {
        return Err(BackendDisabled::EmptyApiKey);
    }
    match provider_from_name(provider) {
        Some(p) => Ok(
            RemoteBackend {
                provider: p,
                api_key: String::from_str(key),
                model: String::from_str(model),
                base_url: settings.base_url.clone(),
            },
        ),
        None => Err(BackendDisabled::UnknownProvider(String::from_str(provider))),
    }
}

/// Chooses the remote client to build; see [`remote_backend_for`]. The
/// provider name is trimmed and lower-cased first.
pub fn select_remote_backend(settings: &BackendSettings) -> (r: Result<
    RemoteBackend,
    BackendDisabled,
>)
    ensures
        match r {
            Ok(b) => remote_choice(settings@, lower_of(trim_chars(settings.provider@))) == Ok::<
                RemoteView,
                DisabledView,
            >(b@),
            Err(e) => remote_choice(settings@, lower_of(trim_chars(settings.provider@))) == Err::<
                RemoteView,
                DisabledView,
            >(e@),
        },
{
    let provider = lowercase(trim_str(settings.provider.as_str()));
    remote_backend_for(settings, provider.as_str())
}

/// A local in-process model client to build.
#[derive(Clone, Debug, PartialEq, Eq)]
pub struct LocalBackend {
    pub model_dir: String,
    pub max_tokens: usize,
    /// How the engine names this backend.
    pub label: String,
}

pub struct LocalView {
    pub model_dir: Seq<char>,
    pub max_tokens: usize,
    pub label: Seq<char>,
}

impl View for LocalBackend {
    type V = LocalView;

    open spec fn view(&self) -> LocalView {
        LocalView { model_dir: self.model_dir@, max_tokens: self.max_tokens, label: self.label@ }
    }
}

/// Why the local backend cannot be had.
#[derive(Clone, Copy, Debug, PartialEq, Eq, Structural)]
pub enum LocalUnavailable {
    /// This build does not include the local model.
    NotCompiledIn,
    /// No model directory is configured.
    EmptyModelDir,
}

/// The local backend the settings give.
pub open spec fn local_choice(s: SettingsView, local_available: bool) -> Result<
    LocalView,
    LocalUnavailable,
> {
    let dir = trim_chars(s.local_model_dir);
    if !local_available {
        Err(LocalUnavailable::NotCompiledIn)
    } else if dir.len() == 0 {
        Err(LocalUnavailable::EmptyModelDir)
    } else {
        Ok(
            LocalView {
                model_dir: dir,
                max_tokens: s.local_max_tokens,
                label: LOCAL_LABEL_PREFIX@ + dir,
            },
        )
    }
}

/// Chooses the local client to build: only when the build includes the local
/// model (`local_available`) and a model directory is configured, trimmed.
pub fn select_local_backend(settings: &BackendSettings, local_available: bool) -> (r: Result<
    LocalBackend,
    LocalUnavailable,
>)
    ensures
        match r {
            Ok(b) => local_choice(settings@, local_available) == Ok::<LocalView, LocalUnavailable>(
                b@,
            ),
            Err(e) => local_choice(settings@, local_available) == Err::<LocalView, LocalUnavailable>(
                e,
            ),
        },
{
    if !local_available {
        return Err(LocalUnavailable::NotCompiledIn);
    }
    let dir = trim_str(settings.local_model_dir.as_str());
    if dir.is_empty() {
        return Err(LocalUnavailable::EmptyModelDir);
    }
    Ok(
        LocalBackend {
            model_dir: String::from_str(dir),
            max_tokens: settings.local_max_tokens,
            label: concat_str(LOCAL_LABEL_PREFIX, dir),
        },
    )
}

/// The backend the engine is given.
#[derive(Clone, Debug, PartialEq, Eq)]
pub enum BackendChoice {
    Remote(RemoteBackend),
    /// The remote family was selected but configuration disables it.
    Disabled(BackendDisabled),
    Local(LocalBackend),
    /// The local family was selected but cannot be had; the engine runs
    /// without a backend under [`LOCAL_UNAVAILABLE_LABEL`].
    LocalUnavailable(LocalUnavailable),
}

pub enum ChoiceView {
    Remote(RemoteView),
    Disabled(DisabledView),
    Local(LocalView),
    LocalUnavailable(LocalUnavailable),
}

impl View for BackendChoice {
    type V = ChoiceView;

    open spec fn view(&self) -> ChoiceView {
        match self {
            BackendChoice::Remote(b) => ChoiceView::Remote(b@),
            BackendChoice::Disabled(d) => ChoiceView::Disabled(d@),
            BackendChoice::Local(b) => ChoiceView::Local(b@),
            BackendChoice::LocalUnavailable(u) => ChoiceView::LocalUnavailable(*u),
        }
    }
}

/// The backend the settings give, given the backend and provider names once
/// trimmed and lower-cased.
pub open spec fn backend_choice(
    s: SettingsView,
    local_available: bool,
    backend: Seq<char>,
    provider: Seq<char>,
) -> ChoiceView {
    if is_local_backend_name(backend) {
        match local_choice(s, local_available) {
            Ok(b) => ChoiceView::Local(b),
            Err(u) => ChoiceView::LocalUnavailable(u),
        }
    } else {
        match remote_choice(s, provider) {
            Ok(b) => ChoiceView::Remote(b),
            Err(d) => ChoiceView::Disabled(d),
        }
    }
}

/// Chooses the backend, given the backend and provider names already trimmed
/// and lower-cased: the local family for a name that [`is_local_backend`]
/// accepts, the remote family otherwise. Never fails: a backend that cannot be
/// had leaves the engine without one.
pub fn backend_for(
    settings: &BackendSettings,
    local_available: bool,
    backend: &str,
    provider: &str,
) -> (r: BackendChoice)
    ensures
        r@ == backend_choice(settings@, local_available, backend@, provider@),
{
    if is_local_backend(backend) {
        match select_local_backend(settings, local_available) {
            Ok(b) => BackendChoice::Local(b),
            Err(u) => BackendChoice::LocalUnavailable(u),
        }
    } else {
        match remote_backend_for(settings, provider) {
            Ok(b) => BackendChoice::Remote(b),
            Err(d) => BackendChoice::Disabled(d),
        }
    }
}

/// Chooses the backend; see [`backend_for`]. The backend and provider names
/// are trimmed and lower-cased first.
pub fn select_backend(settings: &BackendSettings, local_available: bool) -> (r: BackendChoice)
    ensures
        r@ == backend_choice(
            settings@,
            local_available,
            lower_of(trim_chars(settings.backend@)),
            lower_of(trim_chars(settings.provider@)),
        ),
{
    let backend = lowercase(trim_str(settings.backend.as_str()));
    let provider = lowercase(trim_str(settings.provider.as_str()));
    backend_for(settings, local_available, backend.as_str(), provider.as_str())
}

} // verus!
