use vstd::prelude::*;

verus! {

/// Values that the process environment supplies for the configurable fields.
/// A present variable (`Some`, even an empty one) overrides the persisted value.
pub struct EnvOverrides {
    pub target: Option<String>,
    pub folder: Option<String>,
}

/// The persisted record: a schema tag, the base URL of the server and the
/// remote folder that uploads go to.
pub struct ToolConfig {
    pub version: u8,
    pub target: String,
    pub folder: String,
}

/// An override wins over the persisted value whenever it is present.
pub open spec fn resolve(over: Option<String>, persisted: Seq<char>) -> Seq<char> {
    match over {
        Some(v) => v@,
        None => persisted,
    }
}

/// What the upload endpoint adds to the base URL.
pub open spec fn upload_suffix() -> Seq<char> {
    "upload?path=/"@
}

impl ToolConfig {
    /// The target URL in effect under `env`.
    pub open spec fn effective_target(&self, env: &EnvOverrides) -> Seq<char> {
        resolve(env.target, self.target@)
    }

    /// The remote folder in effect under `env`.
    pub open spec fn effective_folder(&self, env: &EnvOverrides) -> Seq<char> {
        resolve(env.folder, self.folder@)
    }

    /// The URL of the upload endpoint under `env`.
    pub open spec fn upload_url(&self, env: &EnvOverrides) -> Seq<char> {
        self.effective_target(env) + upload_suffix()
    }

    /// Returns the remote folder in effect: the override if present, else the persisted one.
    pub fn get_folder(&self, env: &EnvOverrides) -> (r: String)
        ensures
            r@ == self.effective_folder(env),
            env.folder is Some ==> r@ == env.folder->0@,
            env.folder is None ==> r@ == self.folder@,
    {
        match &env.folder {
            Some(v) => v.clone(),
            None => self.folder.clone(),
        }
    }

    /// Returns the target URL in effect: the override if present, else the persisted one.
    pub fn get_target(&self, env: &EnvOverrides) -> (r: String)
        ensures
            r@ == self.effective_target(env),
            env.target is Some ==> r@ == env.target->0@,
            env.target is None ==> r@ == self.target@,
    {
        match &env.target {
            Some(v) => v.clone(),
            None => self.target.clone(),
        }
    }

    /// Returns the URL of the upload endpoint: the target in effect followed by
    /// `upload?path=/`, with no normalisation of slashes.
    pub fn get_upload_target(&self, env: &EnvOverrides) -> (r: String)
        ensures
            r@ == self.effective_target(env) + upload_suffix(),
            r@ == self.upload_url(env),
    {
        let mut upload_target = self.get_target(env);
        upload_target.append("upload?path=/");
        upload_target
    }

    /// Replaces the persisted target URL; nothing else changes.
    pub fn update_target(&mut self, new_target: String)
        ensures
            final(self).target == new_target,
            final(self).folder == old(self).folder,
            final(self).version == old(self).version,
    {
        self.target = new_target;
    }

    /// Replaces the persisted remote folder; nothing else changes.
    pub fn update_folder(&mut self, new_folder: String)
        ensures
            final(self).folder == new_folder,
            final(self).target == old(self).target,
            final(self).version == old(self).version,
    {
        self.folder = new_folder;
    }
}

impl Default for ToolConfig {
    /// A fresh record: version 0, no target and no folder.
    fn default() -> (r: Self)
        ensures
            r.version == 0,
            r.target@ == Seq::<char>::empty(),
            r.folder@ == Seq::<char>::empty(),
    {
        ToolConfig { version: 0, target: String::new(), folder: String::new() }
    }
}

/// A present override decides the value in effect, whatever the persisted
/// record holds; an absent one leaves the persisted value in effect.
pub proof fn lemma_override_precedence(cfg: ToolConfig, env: EnvOverrides)
    ensures
        env.target is Some ==> cfg.effective_target(&env) == env.target->0@,
        env.folder is Some ==> cfg.effective_folder(&env) == env.folder->0@,
        env.target is None ==> cfg.effective_target(&env) == cfg.target@,
        env.folder is None ==> cfg.effective_folder(&env) == cfg.folder@,
{
}

/// Two records that differ only in what they persist resolve to the same
/// values wherever the environment overrides them.
pub proof fn lemma_override_ignores_persisted(a: ToolConfig, b: ToolConfig, env: EnvOverrides)
    ensures
        env.target is Some ==> a.effective_target(&env) == b.effective_target(&env),
        env.folder is Some ==> a.effective_folder(&env) == b.effective_folder(&env),
{
}

/// The upload endpoint is the target in effect followed by the fixed suffix.
pub proof fn lemma_upload_url_extends_target(cfg: ToolConfig, env: EnvOverrides)
    ensures
        cfg.upload_url(&env) == cfg.effective_target(&env) + "upload?path=/"@,
        cfg.upload_url(&env).subrange(0, cfg.effective_target(&env).len() as int)
            == cfg.effective_target(&env),
{
    assert(cfg.upload_url(&env).subrange(0, cfg.effective_target(&env).len() as int)
        =~= cfg.effective_target(&env));
}

} // verus!
