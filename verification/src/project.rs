use vstd::prelude::*;
use vstd::string::StrSliceExecFns;

use crate::album::Album;
use crate::clock::Timestamp;
use crate::paths::{path_file_stem, spec_path_file_stem};
use crate::text::{
    is_alphanumeric, push_char, push_str, spec_is_alphanumeric, spec_to_lowercase, to_lowercase,
    trim, trimmed,
};

verus! {

/// Project file extension.
pub const PROJECT_EXTENSION: &'static str = "rbm";

/// Current project file version.
pub const PROJECT_VERSION: u32 = 1;

/// Errors in loading and saving projects.
#[derive(Debug)]
pub enum ProjectError {
    /// The project file could not be read: path and reason.
    ReadError(String, String),
    /// The project file is not a valid project: path and reason.
    ParseError(String, String),
    /// The project file could not be written: path and reason.
    WriteError(String, String),
    /// The project could not be serialized: reason.
    SerializeError(String),
    /// The file was written by a newer version of the program.
    VersionTooNew { file_version: u32, supported_version: u32 },
    /// The project has no file path yet.
    NoFilePath,
}

/// A Red Book Master project file.
#[derive(Debug)]
pub struct Project {
    /// Project file version (for future compatibility)
    pub version: u32,
    /// The album data
    pub album: Album,
    /// Path to the project file (not serialized)
    pub file_path: Option<String>,
}

/// A title character kept in a file name: alphanumeric, space, dash or underscore
/// stay, anything else becomes an underscore.
pub open spec fn filename_char(c: char) -> char {
    if spec_is_alphanumeric(c) || c == ' ' || c == '-' || c == '_' {
        c
    } else {
        '_'
    }
}

/// `s` with every space turned into a dash.
pub open spec fn spaces_to_dashes(s: Seq<char>) -> Seq<char> {
    s.map_values(|c: char| if c == ' ' { '-' } else { c })
}

/// The default file name for a project with album title `title`: the title with
/// unsafe characters replaced, trimmed, spaces turned into dashes, lowercased,
/// with the project extension.
pub open spec fn default_filename_for(title: Seq<char>) -> Seq<char> {
    spec_to_lowercase(spaces_to_dashes(trim(title.map_values(|c: char| filename_char(c)))))
        + seq!['.', 'r', 'b', 'm']
}

impl Project {
    /// Create a new project with the given album.
    pub fn new(album: Album) -> (p: Project)
        ensures
            p.version == PROJECT_VERSION,
            p.album == album,
            p.file_path is None,
    {
        Project { version: PROJECT_VERSION, album, file_path: None }
    }

    /// Create a new empty project, its untitled album created at `now`.
    pub fn empty(now: Timestamp) -> (p: Project)
        ensures
            p.version == PROJECT_VERSION,
            p.album.title@ == "Untitled Album"@,
            p.album.performer@ == "Unknown Artist"@,
            p.album.tracks@.len() == 0,
            p.album.created_at == now,
            p.album.modified_at == now,
            p.file_path is None,
    {
        Project::new(Album::untitled(now))
    }

    /// Finish loading a project read from `path`: remember the path, and refuse a
    /// file written by a newer version.
    pub fn check_loaded(self, path: String) -> (r: Result<Project, ProjectError>)
        ensures
            self.version > PROJECT_VERSION ==> (r matches Err(
                ProjectError::VersionTooNew { file_version, supported_version },
            ) && file_version == self.version && supported_version == PROJECT_VERSION),
            self.version <= PROJECT_VERSION ==> (r matches Ok(p) && p.version == self.version
                && p.album == self.album && p.file_path == Some(path)),
    {
        let mut project = self;
        project.file_path = Some(path);
        if project.version > PROJECT_VERSION {
            return Err(
                ProjectError::VersionTooNew {
                    file_version: project.version,
                    supported_version: PROJECT_VERSION,
                },
            );
        }
        Ok(project)
    }

    /// Where saving the project writes: its current file path, which must be set.
    pub fn save_target(&self) -> (r: Result<&str, ProjectError>)
        ensures
            match self.file_path {
                Some(p) => r matches Ok(t) && t@ == p@,
                None => r matches Err(ProjectError::NoFilePath),
            },
    {
        match &self.file_path {
            Some(path) => Ok(path.as_str()),
            None => Err(ProjectError::NoFilePath),
        }
    }

    /// Generate a default filename from the album title.
    pub fn default_filename(&self) -> (f: String)
        ensures
            f@ == default_filename_for(self.album.title@),
    {
        let title = self.album.title.as_str();
        let n = title.unicode_len();
        let mut safe = String::new();
        let mut i: usize = 0;
        while i < n
            invariant
                n == title@.len(),
                i <= n,
                safe@ == title@.take(i as int).map_values(|c: char| filename_char(c)),
            decreases n - i,
        {
            let c = title.get_char(i);
            let k = if is_alphanumeric(c) || c == ' ' || c == '-' || c == '_' {
                c
            } else {
                '_'
            };
            push_char(&mut safe, k);
            assert(title@.take(i + 1).map_values(|c: char| filename_char(c)) =~= title@.take(
                i as int,
            ).map_values(|c: char| filename_char(c)).push(k));
            i = i + 1;
        }
        assert(title@.take(n as int) =~= title@);
        let t = trimmed(safe.as_str());
        let m = t.unicode_len();
        let mut dashed = String::new();
        let mut j: usize = 0;
        while j < m
            invariant
                m == t@.len(),
                j <= m,
                dashed@ == spaces_to_dashes(t@.take(j as int)),
            decreases m - j,
        {
            let c = t.as_str().get_char(j);
            let d = if c == ' ' {
                '-'
            } else {
                c
            };
            push_char(&mut dashed, d);
            assert(spaces_to_dashes(t@.take(j + 1)) =~= spaces_to_dashes(t@.take(j as int)).push(d));
            j = j + 1;
        }
        assert(t@.take(m as int) =~= t@);
        let mut f = to_lowercase(dashed.as_str());
        push_char(&mut f, '.');
        push_str(&mut f, PROJECT_EXTENSION);
        proof {
            reveal_strlit("rbm");
        }
        f
    }

    /// Check if the project has unsaved changes; changes are not tracked, so never.
    pub fn is_modified(&self) -> (b: bool)
        ensures
            !b,
    {
        false
    }

    /// Get the project name: the project file's name without extension, or the
    /// album title.
    pub fn name(&self) -> (s: String)
        ensures
            s@ == match self.file_path {
                Some(p) => match spec_path_file_stem(p@) {
                    Some(stem) => stem,
                    None => self.album.title@,
                },
                None => self.album.title@,
            },
    {
        match &self.file_path {
            Some(p) => match path_file_stem(p.as_str()) {
                Some(stem) => stem,
                None => self.album.title.clone(),
            },
            None => self.album.title.clone(),
        }
    }
}

} // verus!
