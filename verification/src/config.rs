//! The options of the file system.
use crate::text::str_eq;
use std::str::FromStr;
use std::time::Duration;
use vstd::prelude::*;

verus! {

/// What `Duration::from_secs` makes of a number of seconds.
pub uninterp spec fn duration_from_secs(secs: u64) -> Duration;

/// `Duration::from_secs` makes the span of that many whole seconds. A span is opaque here, so
/// the contract says that the result is a function of the number.
pub assume_specification[ Duration::from_secs ](secs: u64) -> (r: Duration)
    ensures
        r == duration_from_secs(secs),
;

/// The caching policy that the file system should report to the FUSE client. By default the FUSE
/// protocol uses close-to-open consistency. This means that any cached contents of the file are
/// invalidated the next time that file is opened.
#[derive(Debug, Clone, Copy, PartialEq, Eq, Structural)]
pub enum CachePolicy {
    /// The client should never cache file data and all I/O should be directly forwarded to the
    /// server. This policy must be selected when file contents may change without the knowledge of
    /// the FUSE client (i.e., the file system does not have exclusive access to the directory).
    Never,
    /// The client is free to choose when and how to cache file data. This is the default policy and
    /// uses close-to-open consistency as described in the enum documentation.
    Auto,
    /// The client should always cache file data. This means that the FUSE client will not
    /// invalidate any cached data that was returned by the file system the last time the file was
    /// opened. This policy should only be selected when the file system has exclusive access to the
    /// directory.
    Always,
}

impl CachePolicy {
    /// The names of each policy.
    pub open spec fn is_named(self, s: Seq<char>) -> bool {
        match self {
            CachePolicy::Never => {
                ||| s == "never"@
                ||| s == "Never"@
                ||| s == "NEVER"@
                ||| s == "none"@
                ||| s == "None"@
                ||| s == "NONE"@
            },
            CachePolicy::Auto => s == "auto"@ || s == "Auto"@ || s == "AUTO"@,
            CachePolicy::Always => s == "always"@ || s == "Always"@ || s == "ALWAYS"@,
        }
    }

    /// The policy that `s` names, if it names one.
    pub open spec fn named(s: Seq<char>) -> Option<CachePolicy> {
        if CachePolicy::Never.is_named(s) {
            Some(CachePolicy::Never)
        } else if CachePolicy::Auto.is_named(s) {
            Some(CachePolicy::Auto)
        } else if CachePolicy::Always.is_named(s) {
            Some(CachePolicy::Always)
        } else {
            None
        }
    }
}

/// No text is among the names of two policies.
pub(crate) proof fn lemma_names_differ(s: Seq<char>)
    ensures
        !(CachePolicy::Never.is_named(s) && CachePolicy::Auto.is_named(s)),
        !(CachePolicy::Never.is_named(s) && CachePolicy::Always.is_named(s)),
        !(CachePolicy::Auto.is_named(s) && CachePolicy::Always.is_named(s)),
{
    reveal_strlit("never");
    reveal_strlit("Never");
    reveal_strlit("NEVER");
    reveal_strlit("none");
    reveal_strlit("None");
    reveal_strlit("NONE");
    reveal_strlit("auto");
    reveal_strlit("Auto");
    reveal_strlit("AUTO");
    reveal_strlit("always");
    reveal_strlit("Always");
    reveal_strlit("ALWAYS");
    assert(CachePolicy::Never.is_named(s) ==> s[0] == 'n' || s[0] == 'N');
    assert(CachePolicy::Auto.is_named(s) ==> (s[0] == 'a' || s[0] == 'A') && s.len() == 4);
    assert(CachePolicy::Always.is_named(s) ==> (s[0] == 'a' || s[0] == 'A') && s.len() == 6);
}

/// Which texts are names of policies, and of which.
pub proof fn law_policy_names(s: Seq<char>)
    ensures
        CachePolicy::named(s) == Some(CachePolicy::Never) <==> s == "never"@ || s == "Never"@ || s
            == "NEVER"@ || s == "none"@ || s == "None"@ || s == "NONE"@,
        CachePolicy::named(s) == Some(CachePolicy::Auto) <==> s == "auto"@ || s == "Auto"@ || s
            == "AUTO"@,
        CachePolicy::named(s) == Some(CachePolicy::Always) <==> s == "always"@ || s == "Always"@
            || s == "ALWAYS"@,
{
    lemma_names_differ(s);
}

impl FromStr for CachePolicy {
    type Err = &'static str;

    fn from_str(s: &str) -> (r: Result<Self, Self::Err>)
        ensures
            match r {
                Ok(p) => CachePolicy::named(s@) == Some(p),
                Err(m) => CachePolicy::named(s@) is None && m@ == "invalid cache policy"@,
            },
            (r is Ok && r->Ok_0 is Never) <==> s@ == "never"@ || s@ == "Never"@ || s@ == "NEVER"@
                || s@ == "none"@ || s@ == "None"@ || s@ == "NONE"@,
            (r is Ok && r->Ok_0 is Auto) <==> s@ == "auto"@ || s@ == "Auto"@ || s@ == "AUTO"@,
            (r is Ok && r->Ok_0 is Always) <==> s@ == "always"@ || s@ == "Always"@ || s@
                == "ALWAYS"@,
    {
        proof {
            lemma_names_differ(s@);
        }
        if str_eq(s, "never") || str_eq(s, "Never") || str_eq(s, "NEVER") || str_eq(s, "none")
            || str_eq(s, "None") || str_eq(s, "NONE") {
            Ok(CachePolicy::Never)
        } else if str_eq(s, "auto") || str_eq(s, "Auto") || str_eq(s, "AUTO") {
            Ok(CachePolicy::Auto)
        } else if str_eq(s, "always") || str_eq(s, "Always") || str_eq(s, "ALWAYS") {
            Ok(CachePolicy::Always)
        } else {
            Err("invalid cache policy")
        }
    }
}

impl Default for CachePolicy {
    fn default() -> (r: Self)
        ensures
            r == CachePolicy::Auto,
    {
        CachePolicy::Auto
    }
}

/// Options that configure the behavior of the passthrough fuse file system.
#[derive(Debug, PartialEq)]
pub struct Config {
    /// How long the FUSE client should consider directory entries to be valid. If the contents of a
    /// directory can only be modified by the FUSE client (i.e., the file system has exclusive
    /// access), then this should be a large value.
    ///
    /// The default value for this option is 5 seconds.
    pub entry_timeout: Duration,
    /// How long the FUSE client should consider file and directory attributes to be valid. If the
    /// attributes of a file or directory can only be modified by the FUSE client (i.e., the file
    /// system has exclusive access), then this should be set to a large value.
    ///
    /// The default value for this option is 5 seconds.
    pub attr_timeout: Duration,
    /// The caching policy the file system should use. See the documentation of `CachePolicy` for
    /// more details.
    pub cache_policy: CachePolicy,
    /// Whether the file system should enabled writeback caching. This can improve performance as it
    /// allows the FUSE client to cache and coalesce multiple writes before sending them to the file
    /// system. However, enabling this option can increase the risk of data corruption if the file
    /// contents can change without the knowledge of the FUSE client (i.e., the server does **NOT**
    /// have exclusive access). Additionally, the file system should have read access to all files
    /// in the directory it is serving as the FUSE client may send read requests even for files
    /// opened with `O_WRONLY`.
    ///
    /// Therefore callers should only enable this option when they can guarantee that: 1) the file
    /// system has exclusive access to the directory and 2) the file system has read permissions for
    /// all files in that directory.
    ///
    /// The default value for this option is `false`.
    pub writeback: bool,
    /// The path of the root directory.
    ///
    /// The default is `/`.
    pub root_dir: String,
    /// Whether the file system should support Extended Attributes (xattr). Enabling this feature may
    /// have a significant impact on performance, especially on write parallelism. This is the result
    /// of FUSE attempting to remove the special file privileges after each write request.
    ///
    /// The default value for this options is `false`.
    pub xattr: bool,
    /// To be compatible with Vfs and PseudoFs, PassthroughFs needs to prepare
    /// root inode before accepting INIT request.
    ///
    /// The default value for this option is `true`.
    pub do_import: bool,
    /// Control whether no_open is allowed.
    ///
    /// The default value for this option is `false`.
    pub no_open: bool,
    /// Control whether no_opendir is allowed.
    ///
    /// The default value for this option is `false`.
    pub no_opendir: bool,
    /// Control whether kill_priv_v2 is enabled.
    ///
    /// The default value for this option is `false`.
    pub killpriv_v2: bool,
    /// Whether to use file handles to reference inodes.  We need to be able to open file
    /// descriptors for arbitrary inodes, and by default that is done by storing an `O_PATH` FD in
    /// `InodeData`.  Not least because there is a maximum number of FDs a process can have open
    /// users may find it preferable to store a file handle instead, which we can use to open an FD
    /// when necessary.
    /// So this switch allows to choose between the alternatives: When set to `false`, `InodeData`
    /// will store `O_PATH` FDs.  Otherwise, we will attempt to generate and store a file handle
    /// instead.
    ///
    /// The default is `false`.
    pub inode_file_handles: bool,
}

impl Clone for Config {
    fn clone(&self) -> (r: Self)
        ensures
            r == *self,
    {
        Config {
            entry_timeout: self.entry_timeout,
            attr_timeout: self.attr_timeout,
            cache_policy: self.cache_policy,
            writeback: self.writeback,
            root_dir: self.root_dir.clone(),
            xattr: self.xattr,
            do_import: self.do_import,
            no_open: self.no_open,
            no_opendir: self.no_opendir,
            killpriv_v2: self.killpriv_v2,
            inode_file_handles: self.inode_file_handles,
        }
    }
}

impl Default for Config {
    fn default() -> (r: Self)
        ensures
            r.entry_timeout == duration_from_secs(5),
            r.attr_timeout == duration_from_secs(5),
            r.cache_policy == CachePolicy::Auto,
            !r.writeback,
            r.root_dir@ == "/"@,
            !r.xattr,
            r.do_import,
            !r.no_open,
            !r.no_opendir,
            !r.killpriv_v2,
            !r.inode_file_handles,
    {
        Config {
            entry_timeout: Duration::from_secs(5),
            attr_timeout: Duration::from_secs(5),
            cache_policy: CachePolicy::default(),
            writeback: false,
            root_dir: "/".to_string(),
            xattr: false,
            do_import: true,
            no_open: false,
            no_opendir: false,
            killpriv_v2: false,
            inode_file_handles: false,
        }
    }
}

} // verus!
