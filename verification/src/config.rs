use vstd::prelude::*;

verus! {

/// Per-session configuration: one toggle per supported compression format,
/// one for uncompressed passthrough, and one for tolerating trailing data
/// after a complete compressed stream.  Immutable once a session is built.
#[derive(Clone, Copy, Debug)]
pub struct DecompressBuilder {
    pub trailing_data: bool,
    pub uncompressed: bool,
    pub bzip2: bool,
    pub gzip: bool,
    pub xz: bool,
    pub zstd: bool,
}

impl DecompressBuilder {
    /// The default configuration: every compression format enabled,
    /// passthrough and trailing-data tolerance disabled.
    pub fn new() -> (r: Self)
        ensures
            r == (DecompressBuilder {
                trailing_data: false,
                uncompressed: false,
                bzip2: true,
                gzip: true,
                xz: true,
                zstd: true,
            }),
    {
        DecompressBuilder {
            bzip2: true,
            gzip: true,
            xz: true,
            zstd: true,
            ..Self::none()
        }
    }

    /// Everything disabled; callers opt in format by format.
    pub fn none() -> (r: Self)
        ensures
            r == (DecompressBuilder {
                trailing_data: false,
                uncompressed: false,
                bzip2: false,
                gzip: false,
                xz: false,
                zstd: false,
            }),
    {
        DecompressBuilder {
            trailing_data: false,
            uncompressed: false,
            bzip2: false,
            gzip: false,
            xz: false,
            zstd: false,
        }
    }

    /// Permit residual bytes after a complete compressed stream.
    pub fn trailing_data(self, enable: bool) -> (r: Self)
        ensures
            r == (DecompressBuilder { trailing_data: enable, ..self }),
    {
        DecompressBuilder { trailing_data: enable, ..self }
    }

    /// Permit raw passthrough when no enabled format matches.
    pub fn uncompressed(self, enable: bool) -> (r: Self)
        ensures
            r == (DecompressBuilder { uncompressed: enable, ..self }),
    {
        DecompressBuilder { uncompressed: enable, ..self }
    }

    pub fn bzip2(self, enable: bool) -> (r: Self)
        ensures
            r == (DecompressBuilder { bzip2: enable, ..self }),
    {
        DecompressBuilder { bzip2: enable, ..self }
    }

    pub fn gzip(self, enable: bool) -> (r: Self)
        ensures
            r == (DecompressBuilder { gzip: enable, ..self }),
    {
        DecompressBuilder { gzip: enable, ..self }
    }

    pub fn xz(self, enable: bool) -> (r: Self)
        ensures
            r == (DecompressBuilder { xz: enable, ..self }),
    {
        DecompressBuilder { xz: enable, ..self }
    }

    pub fn zstd(self, enable: bool) -> (r: Self)
        ensures
            r == (DecompressBuilder { zstd: enable, ..self }),
    {
        DecompressBuilder { zstd: enable, ..self }
    }
}

impl Default for DecompressBuilder {
    fn default() -> (r: Self)
        ensures
            r == (DecompressBuilder {
                trailing_data: false,
                uncompressed: false,
                bzip2: true,
                gzip: true,
                xz: true,
                zstd: true,
            }),
    {
        Self::new()
    }
}

} // verus!
