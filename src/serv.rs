use vstd::prelude::*;

use crate::conf::{EnvOverrides, ToolConfig};

verus! {

/// A request that asks the server to create `folder`, posted to `url` as the
/// multipart field `mkdir`.
pub struct MkdirRequest {
    pub url: String,
    pub folder: String,
}

/// What an upload sends, in order: the folder request if there is one, then
/// the file as the multipart field `path`, posted to `url`.
pub struct UploadPlan {
    pub mkdir: Option<MkdirRequest>,
    pub url: String,
}

/// Why a transfer cannot start.
#[derive(Debug, PartialEq, Eq, Structural)]
pub enum TransferError {
    /// The local file could not be confirmed to exist.
    FileNotFound,
}

/// The folder part of a remote path: the folder and a slash, or nothing for
/// an empty folder.
pub open spec fn folder_segment(folder: Seq<char>) -> Seq<char> {
    if folder.len() == 0 {
        Seq::empty()
    } else {
        folder + "/"@
    }
}

/// The URL that a file is uploaded to under `env`.
pub open spec fn upload_target_of(cfg: &ToolConfig, env: &EnvOverrides) -> Seq<char> {
    cfg.upload_url(env) + folder_segment(cfg.effective_folder(env))
}

/// The URL that `file_name` is downloaded from under `env`.
pub open spec fn download_url_of(cfg: &ToolConfig, env: &EnvOverrides, file_name: Seq<char>) -> Seq<char> {
    cfg.effective_target(env) + folder_segment(cfg.effective_folder(env)) + file_name
}

/// `r` asks for the folder in effect to be created, exactly when there is one.
pub open spec fn is_mkdir_for(r: Option<MkdirRequest>, cfg: &ToolConfig, env: &EnvOverrides) -> bool {
    match r {
        Some(q) => {
            &&& cfg.effective_folder(env).len() > 0
            &&& q.url@ == cfg.upload_url(env)
            &&& q.folder@ == cfg.effective_folder(env)
        },
        None => cfg.effective_folder(env).len() == 0,
    }
}

/// Appends `folder` and a slash to `url`, unless `folder` is empty.
fn push_folder(url: &mut String, folder: &str)
    ensures
        final(url)@ == old(url)@ + folder_segment(folder@),
{
    if folder.unicode_len() > 0 {
        url.append(folder);
        url.append("/");
    } else {
        assert(old(url)@ + folder_segment(folder@) =~= old(url)@);
    }
}

/// The request that creates the remote folder in effect, or `None` when the
/// folder is empty and nothing is to be created.
pub fn create_active_folder(cfg: &ToolConfig, env: &EnvOverrides) -> (r: Option<MkdirRequest>)
    ensures
        is_mkdir_for(r, cfg, env),
        r is Some <==> cfg.effective_folder(env).len() > 0,
{
    let folder = cfg.get_folder(env);
    if folder.unicode_len() > 0 {
        Some(MkdirRequest { url: cfg.get_upload_target(env), folder })
    } else {
        None
    }
}

/// The URL that a file is uploaded to: the upload endpoint, then the folder in
/// effect and a slash when that folder is not empty.
pub fn upload_target(cfg: &ToolConfig, env: &EnvOverrides) -> (r: String)
    ensures
        r@ == upload_target_of(cfg, env),
        cfg.effective_folder(env).len() == 0 ==> r@ == cfg.upload_url(env),
        cfg.effective_folder(env).len() > 0 ==> r@ == cfg.upload_url(env)
            + cfg.effective_folder(env) + "/"@,
{
    let mut target = cfg.get_upload_target(env);
    let folder = cfg.get_folder(env);
    push_folder(&mut target, folder.as_str());
    proof {
        if cfg.effective_folder(env).len() == 0 {
            assert(target@ =~= cfg.upload_url(env));
        }
    }
    target
}

/// Plans an upload. A file that could not be confirmed to exist stops it
/// before any request; otherwise the plan holds the folder request, if any,
/// and the URL that the file goes to.
pub fn upload_file(cfg: &ToolConfig, env: &EnvOverrides, file_found: bool) -> (r: Result<
    UploadPlan,
    TransferError,
>)
    ensures
        r is Err <==> !file_found,
        r is Err ==> r == Err::<UploadPlan, TransferError>(TransferError::FileNotFound),
        r matches Ok(p) ==> is_mkdir_for(p.mkdir, cfg, env) && p.url@ == upload_target_of(
            cfg,
            env,
        ),
{
    if !file_found {
        return Err(TransferError::FileNotFound);
    }
    let mkdir = create_active_folder(cfg, env);
    let url = upload_target(cfg, env);
    Ok(UploadPlan { mkdir, url })
}

/// The URL that `file_name` is downloaded from: the target in effect, then the
/// folder in effect and a slash when that folder is not empty, then the name.
pub fn download(cfg: &ToolConfig, env: &EnvOverrides, file_name: &str) -> (r: String)
    ensures
        r@ == download_url_of(cfg, env, file_name@),
        cfg.effective_folder(env).len() == 0 ==> r@ == cfg.effective_target(env) + file_name@,
        cfg.effective_folder(env).len() > 0 ==> r@ == cfg.effective_target(env)
            + cfg.effective_folder(env) + "/"@ + file_name@,
{
    let mut src = cfg.get_target(env);
    let folder = cfg.get_folder(env);
    push_folder(&mut src, folder.as_str());
    src.append(file_name);
    proof {
        if cfg.effective_folder(env).len() == 0 {
            assert(src@ =~= cfg.effective_target(env) + file_name@);
        } else {
            assert(src@ =~= cfg.effective_target(env) + cfg.effective_folder(env) + "/"@ + file_name@);
        }
    }
    src
}

/// The download URL puts exactly one slash between a non-empty folder and the
/// file name, and none when the folder is empty.
pub proof fn lemma_download_url_shape(cfg: ToolConfig, env: EnvOverrides, file_name: Seq<char>)
    ensures
        cfg.effective_folder(&env).len() > 0 ==> download_url_of(&cfg, &env, file_name)
            == cfg.effective_target(&env) + cfg.effective_folder(&env) + "/"@ + file_name,
        cfg.effective_folder(&env).len() == 0 ==> download_url_of(&cfg, &env, file_name)
            == cfg.effective_target(&env) + file_name,
{
    if cfg.effective_folder(&env).len() == 0 {
        assert(download_url_of(&cfg, &env, file_name) =~= cfg.effective_target(&env) + file_name);
    }
}

} // verus!
