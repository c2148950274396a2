//! The part of `cargo metadata` output that declares assets.
use vstd::prelude::*;
use crate::error::{AssetsError, VerificationError};
use crate::hashing::{DigestStream, hex_lower, sha256};
use crate::progress::{advance, Progress, TaskPhase};
use crate::text::{verifying_label, verifying_text};

verus! {

/// An asset to download: where it is saved, where it comes from, and
/// optionally the SHA-256 checksum it must have.
#[derive(Debug)]
pub struct Asset {
    pub name: String,
    pub url: String,
    pub sha256: Option<String>,
}

impl Clone for Asset {
    fn clone(&self) -> (res: Self)
        ensures
            res == *self,
    {
        Asset {
            name: self.name.clone(),
            url: self.url.clone(),
            sha256: match &self.sha256 {
                Some(s) => Some(s.clone()),
                None => None,
            },
        }
    }
}

impl Asset {
    /// The file name under which the asset is saved.
    pub open spec fn name_text(self) -> Seq<char> {
        self.name@
    }

    /// The URL from which the asset is downloaded.
    pub open spec fn url_text(self) -> Seq<char> {
        self.url@
    }

    /// The expected SHA-256 digest in hex, if the asset declares one.
    pub open spec fn sha256_text(self) -> Option<Seq<char>> {
        match self.sha256 {
            Some(s) => Some(s@),
            None => None,
        }
    }

    /// Starts checking a file against the asset's checksum, reporting as task
    /// `id`: `None` if the asset declares no checksum (nothing to check).
    pub fn start_verification(&self, id: usize) -> (s: Option<DigestStream>)
        ensures
            self.sha256_text() is None ==> s is None,
            self.sha256_text() is Some ==> (s matches Some(d) && d@ == Seq::<u8>::empty()
                && d.task() == id),
    {
        match &self.sha256 {
            Some(_) => Some(DigestStream::new(id)),
            None => None,
        }
    }

    /// The event that announces verification of a file of `size` bytes as task `id`.
    pub fn verification_notice(&self, id: usize, size: u64) -> (p: Progress)
        ensures
            p matches Progress::Reset { id: i, name, size: s } && i == id && name@ == verifying_label(
                self.name_text(),
            ) && s == size,
            advance(id, TaskPhase::Transfer, p) == Some(TaskPhase::Verify),
    {
        Progress::Reset { id, name: verifying_text(self.name.as_str()), size }
    }

    /// The error for a file that could not be opened or read for verification.
    pub fn read_failure(&self, source: std::io::Error) -> (e: AssetsError)
        ensures
            e matches AssetsError::Verification(VerificationError::Io { name, source: s })
                && name@ == self.name_text() && s == source,
    {
        AssetsError::Verification(VerificationError::Io { name: self.name.clone(), source })
    }

    /// The verification outcome for a file whose SHA-256 digest, in
    /// lowercase hex, is `actual`.
    pub fn judge_digest(&self, actual: String) -> (r: Result<(), AssetsError>)
        ensures
            match self.sha256_text() {
                None => r is Ok,
                Some(want) => if actual@ == want {
                    r is Ok
                } else {
                    r matches Err(AssetsError::Verification(VerificationError::Mismatch { name, expected, actual: a }))
                        && name@ == self.name_text() && expected@ == want && a == actual
                },
            },
    {
        match &self.sha256 {
            None => Ok(()),
            Some(want) => {
                if actual == *want {
                    Ok(())
                } else {
                    Err(AssetsError::Verification(VerificationError::Mismatch {
                        name: self.name.clone(),
                        expected: want.clone(),
                        actual,
                    }))
                }
            },
        }
    }

    /// Checks the content hashed by `stream` against the asset's checksum.
    pub fn check_digest(&self, stream: DigestStream) -> (r: Result<(), AssetsError>)
        ensures
            match self.sha256_text() {
                None => r is Ok,
                Some(want) => if hex_lower(sha256(stream@)) == want {
                    r is Ok
                } else {
                    r matches Err(AssetsError::Verification(VerificationError::Mismatch { name, expected, actual }))
                        && name@ == self.name_text() && expected@ == want
                        && actual@ == hex_lower(sha256(stream@))
                },
            },
    {
        match &self.sha256 {
            None => Ok(()),
            Some(_) => self.judge_digest(stream.hex_digest()),
        }
    }

    /// The expected SHA-256 digest in hex, if the asset declares one.
    pub fn expected_sha256(&self) -> (s: Option<&str>)
        ensures
            match self.sha256_text() {
                Some(t) => s matches Some(v) && v@ == t,
                None => s is None,
            },
    {
        match &self.sha256 {
            Some(v) => Some(v.as_str()),
            None => None,
        }
    }

    /// The name with which to save the asset.
    pub fn name(&self) -> (s: &str)
        ensures
            s@ == self.name_text(),
    {
        self.name.as_str()
    }

    /// The URL from which to download the asset.
    pub fn url(&self) -> (s: &str)
        ensures
            s@ == self.url_text(),
    {
        self.url.as_str()
    }
}

/// The metadata table of a package or of the workspace.
#[derive(Debug, Clone)]
pub struct PackageMetadata {
    pub assets: Option<Vec<Asset>>,
}

impl PackageMetadata {
    /// The `assets` list of the table, if it has one.
    pub open spec fn asset_list(self) -> Option<Seq<Asset>> {
        match self.assets {
            Some(v) => Some(v@),
            None => None,
        }
    }
}

/// One package of the workspace.
#[derive(Debug, Clone)]
pub struct Package {
    pub metadata: Option<PackageMetadata>,
}

impl Package {
    /// The package's metadata table, if it has one.
    pub open spec fn table(self) -> Option<PackageMetadata> {
        self.metadata
    }
}

/// The assets that an optional metadata table declares (none if the table or
/// its `assets` list is absent).
pub open spec fn declared(m: Option<PackageMetadata>) -> Seq<Asset> {
    match m {
        Some(pm) => match pm.asset_list() {
            Some(v) => v,
            None => Seq::empty(),
        },
        None => Seq::empty(),
    }
}

/// The assets that the packages declare, package by package, each package's
/// assets in their declared order.
pub open spec fn package_assets(pkgs: Seq<Package>) -> Seq<Asset>
    decreases pkgs.len(),
{
    if pkgs.len() == 0 {
        Seq::empty()
    } else {
        package_assets(pkgs.drop_last()) + declared(pkgs.last().table())
    }
}

proof fn lemma_package_assets_flat(pkgs: Seq<Package>)
    ensures
        package_assets(pkgs) == pkgs.map_values(
            |p: Package|
                match p.metadata {
                    Some(t) => match t.assets {
                        Some(v) => v@,
                        None => Seq::<Asset>::empty(),
                    },
                    None => Seq::<Asset>::empty(),
                },
        ).flatten(),
    decreases pkgs.len(),
{
    let f = |p: Package|
        match p.metadata {
            Some(t) => match t.assets {
                Some(v) => v@,
                None => Seq::<Asset>::empty(),
            },
            None => Seq::<Asset>::empty(),
        };
    if pkgs.len() == 0 {
        assert(pkgs.map_values(f) =~= Seq::<Seq<Asset>>::empty());
    } else {
        lemma_package_assets_flat(pkgs.drop_last());
        assert(pkgs.map_values(f) =~= pkgs.drop_last().map_values(f).push(f(pkgs.last())));
        pkgs.drop_last().map_values(f).lemma_flatten_push(f(pkgs.last()));
        assert(declared(pkgs.last().table()) == f(pkgs.last()));
    }
}

/// The assets listed for a workspace are the assets of its own metadata
/// table (none if the table or its `assets` list is absent), followed by the
/// assets of every package in package order (none for a package whose table
/// or list is absent) -- whether or not the workspace has a table.
pub proof fn lemma_assets_listing(m: CargoMetadata)
    ensures
        m.all_assets() == (match m.metadata {
            Some(t) => match t.assets {
                Some(v) => v@,
                None => Seq::<Asset>::empty(),
            },
            None => Seq::<Asset>::empty(),
        }) + m.packages@.map_values(
            |p: Package|
                match p.metadata {
                    Some(t) => match t.assets {
                        Some(v) => v@,
                        None => Seq::<Asset>::empty(),
                    },
                    None => Seq::<Asset>::empty(),
                },
        ).flatten(),
{
    lemma_package_assets_flat(m.packages@);
}

/// Calls `String::from_utf8`, which succeeds exactly on valid UTF-8 and then
/// holds the decoded text.
#[verifier::external_body]
fn string_from_utf8(bytes: Vec<u8>) -> (r: Result<String, std::string::FromUtf8Error>)
    ensures
        r is Ok <==> vstd::utf8::valid_utf8(bytes@),
        r matches Ok(s) ==> s@ == vstd::utf8::decode_utf8(bytes@),
{
    String::from_utf8(bytes)
}

/// What `cargo metadata --format-version 1 --no-deps` reports that matters here.
#[derive(Debug, Clone)]
pub struct CargoMetadata {
    pub packages: Vec<Package>,
    pub target_directory: String,
    pub metadata: Option<PackageMetadata>,
}

impl CargoMetadata {
    /// The workspace's packages, in the order cargo lists them.
    pub open spec fn package_list(self) -> Seq<Package> {
        self.packages@
    }

    /// The target directory, as text.
    pub open spec fn target_text(self) -> Seq<char> {
        self.target_directory@
    }

    /// The workspace's own metadata table, if it has one.
    pub open spec fn workspace_table(self) -> Option<PackageMetadata> {
        self.metadata
    }

    /// All declared assets: the workspace's first, then each package's in
    /// package order.
    pub open spec fn all_assets(self) -> Seq<Asset> {
        declared(self.workspace_table()) + package_assets(self.package_list())
    }

    /// The error that a failed `cargo metadata` run is reported as: its
    /// standard error as text, or the decoding error if that is not UTF-8.
    pub fn load_failure(stderr: Vec<u8>) -> (e: AssetsError)
        ensures
            vstd::utf8::valid_utf8(stderr@) ==> (e matches AssetsError::CargoMetadata(s)
                && s@ == vstd::utf8::decode_utf8(stderr@)),
            !vstd::utf8::valid_utf8(stderr@) ==> e is FromUtf8,
    {
        match string_from_utf8(stderr) {
            Ok(s) => AssetsError::CargoMetadata(s),
            Err(e) => AssetsError::FromUtf8(e),
        }
    }

    /// The directory in which cargo places build output.
    pub fn target_directory(&self) -> (s: &str)
        ensures
            s@ == self.target_text(),
    {
        self.target_directory.as_str()
    }

    /// Every asset declared in the workspace metadata, followed by those of
    /// each package in package order.
    pub fn assets(&self) -> (all: Vec<Asset>)
        ensures
            all@ == self.all_assets(),
            all@ == (match self.metadata { Some(t) => match t.assets { Some(v) => v@, None => Seq::<Asset>::empty() }, None => Seq::<Asset>::empty() })
                + self.packages@.map_values(|p: Package| match p.metadata { Some(t) => match t.assets { Some(v) => v@, None => Seq::<Asset>::empty() }, None => Seq::<Asset>::empty() }).flatten(),
    {
        proof {
            lemma_assets_listing(*self);
        }
        let mut all: Vec<Asset> = Vec::new();
        append_declared(&mut all, &self.metadata);
        let n = self.packages.len();
        let mut i: usize = 0;
        while i < n
            invariant
                n == self.packages@.len(),
                i <= n,
                all@ == declared(self.metadata) + package_assets(self.packages@.take(i as int)),
            decreases n - i,
        {
            append_declared(&mut all, &self.packages[i].metadata);
            proof {
                let pkgs = self.packages@.take(i + 1);
                assert(pkgs.drop_last() =~= self.packages@.take(i as int));
            }
            i = i + 1;
        }
        proof {
            assert(self.packages@.take(n as int) =~= self.packages@);
        }
        all
    }
}

/// Appends copies of the assets that `m` declares.
fn append_declared(all: &mut Vec<Asset>, m: &Option<PackageMetadata>)
    ensures
        final(all)@ == old(all)@ + declared(*m),
{
    if let Some(meta) = m {
        if let Some(assets) = &meta.assets {
            let n = assets.len();
            let ghost start = all@;
            let mut j: usize = 0;
            while j < n
                invariant
                    n == assets@.len(),
                    j <= n,
                    all@ == start + assets@.take(j as int),
                decreases n - j,
            {
                all.push(assets[j].clone());
                proof {
                    assert(assets@.take(j + 1) =~= assets@.take(j as int).push(assets@[j as int]));
                }
                j = j + 1;
            }
            proof {
                assert(assets@.take(n as int) =~= assets@);
            }
        }
    }
}

} // verus!
