use vstd::prelude::*;
use vstd::string::StringExecFns;

use crate::errors::Error;
use crate::session::GDrive;
use crate::text::{is_remote, is_remote_path, join_path, joined};

verus! {

/// What one copy dispatch tells the driver to do. The recursion itself is
/// driven outside: listing children, walking the local tree and moving bytes
/// are remote and local I/O.
pub enum CopyAction {
    /// Local to remote: run the upload orchestration of the source under the
    /// destination path.
    Upload,
    /// A remote directory to local ground: list the source path, then copy
    /// every entry into `dest` — the destination extended by the directory's
    /// own name.
    DescendRemote { dest: String },
    /// A remote file to local ground: download it into `dest_dir`.
    DownloadInto { dest_dir: String },
}

impl GDrive {
    /// Decides one subtree-copy dispatch on the provider prefixes of the two
    /// paths. Remote-to-remote copy is deliberately unimplemented and fails
    /// loudly; a remote source must already resolve in the cache.
    pub fn copy(&self, from: &str, to: &str) -> (r: Result<CopyAction, Error>)
        ensures
            !self.authed() ==> (r matches Err(e) && e is Auth),
            self.authed() && is_remote(to@) && is_remote(from@) ==> (r matches Err(e)
                && e is Unsupported),
            self.authed() && is_remote(to@) && !is_remote(from@) ==> (r matches Ok(a)
                && a is Upload),
            self.authed() && !is_remote(to@) && !self.cache().contains_key(from@) ==> (r matches
                Err(e) && e matches Error::NotCached(p) && p@ == from@),
            self.authed() && !is_remote(to@) && self.cache().contains_key(from@)
                && self.cache()[from@].kind is Directory ==> (r matches Ok(a)
                && a matches CopyAction::DescendRemote { dest } && dest@ == joined(
                to@,
                self.cache()[from@].name,
            )),
            self.authed() && !is_remote(to@) && self.cache().contains_key(from@)
                && !(self.cache()[from@].kind is Directory) ==> (r matches Ok(a)
                && a matches CopyAction::DownloadInto { dest_dir } && dest_dir@ == to@ + "/"@),
    {
        if let Err(e) = self.is_authenticated() {
            return Err(e);
        }
        if is_remote_path(to) {
            if is_remote_path(from) {
                return Err(Error::Unsupported("remote-to-remote copy".to_owned()));
            }
            return Ok(CopyAction::Upload);
        }
        let item = match self.resolve(from) {
            Some(o) => o,
            None => {
                return Err(Error::NotCached(from.to_owned()));
            },
        };
        if item.is_dir() {
            let dest = join_path(to, item.name.as_str());
            Ok(CopyAction::DescendRemote { dest })
        } else {
            let mut dest_dir: String = to.to_owned();
            dest_dir.append("/");
            Ok(CopyAction::DownloadInto { dest_dir })
        }
    }
}

} // verus!
