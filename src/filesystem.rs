use vstd::prelude::*;
use vstd::std_specs::convert::IntoSpec;

verus! {

#[verifier::external_type_specification]
#[verifier::external_body]
pub struct ExIoError(std::io::Error);

/// A filesystem operation that failed, with the path it was working on.
#[derive(Debug)]
pub enum FilesystemError {
    Filesystem { source: std::io::Error, path: String },
}

impl FilesystemError {
    pub fn from_io_error<S: Into<String>>(source: std::io::Error, path: S) -> (r: Self)
        ensures
            r matches FilesystemError::Filesystem { source: s, path: p } && s == source && (
            S::obeys_into_spec() ==> p == path.into_spec()),
    {
        FilesystemError::Filesystem { source, path: path.into() }
    }

    /// Runs `function`; its I/O error, if any, comes back with `path` attached.
    pub fn handling_io_error_in<S, F, R>(path: S, function: F) -> (r: Result<R, Self>) where
        S: Into<String>,
        F: FnOnce() -> Result<R, std::io::Error>,

        requires
            function.requires(()),
        ensures
            match r {
                Ok(v) => function.ensures((), Ok(v)),
                Err(FilesystemError::Filesystem { source, path: p }) => function.ensures(
                    (),
                    Err(source),
                ) && (S::obeys_into_spec() ==> p == path.into_spec()),
            },
    {
        match function() {
            Ok(v) => Ok(v),
            Err(err) => Err(Self::from_io_error(err, path)),
        }
    }
}

} // verus!
