//! The document registry: it owns every registered file, hands out file
//! identities, replaces documents and checks pointers against generations.

use vstd::prelude::*;
use crate::error::{LiveError, LiveErrorSpan, LiveFileError, LivePlace, LiveResolveError};
use crate::ids::{LiveFileId, LiveId, LivePtr, LiveTokenId, TextPos};
use crate::node::{LiveDocument, LiveNode};
use crate::token::TokenWithSpan;

verus! {

/// A type descriptor that the front end registers with a file.
#[derive(Clone, Debug, PartialEq, Eq)]
pub struct LiveTypeInfo {
    pub name: LiveId,
    pub module_name: String,
}

/// What the front end hands over for one file.
#[derive(Clone, Debug, PartialEq, Eq)]
pub struct LiveBody {
    pub file: String,
    pub cargo_manifest_path: String,
    pub module_name: String,
    pub line: usize,
    pub column: usize,
    pub code: String,
    pub live_type_infos: Vec<LiveTypeInfo>,
}

/// One registered file: what was handed over, the current document, and
/// the document's generation.
#[derive(Clone, Debug, PartialEq, Eq)]
pub struct LiveFile {
    pub body: LiveBody,
    pub generation: u64,
    pub document: LiveDocument,
}

/// What expanding one document gave: the normalized nodes, and the errors
/// met on the way.
#[derive(Clone, Debug, PartialEq, Eq)]
pub struct LiveExpansion {
    pub nodes: Vec<LiveNode>,
    pub errors: Vec<LiveError>,
}

/// All registered files, in the order of their first registration.
#[derive(Clone, Debug, PartialEq, Eq)]
pub struct LiveRegistry {
    pub live_files: Vec<LiveFile>,
}

/// The generation of a file's first document.
pub const FIRST_GENERATION: u64 = 1;

/// The index of the first file from `from` on that is registered under
/// `name`, or the number of files where there is none.
pub open spec fn file_index(files: Seq<LiveFile>, name: Seq<char>, from: int) -> int
    decreases files.len() - from,
{
    if from < 0 || from >= files.len() {
        files.len() as int
    } else if files[from].body.file@ == name {
        from
    } else {
        file_index(files, name, from + 1)
    }
}

/// The files after a document was registered for `body`: a file that is
/// registered under the body's name keeps its place and gets the new body,
/// the new document and the next generation; a new file is appended with
/// the first generation. No other file changes.
pub open spec fn registered_files(
    files: Seq<LiveFile>,
    body: LiveBody,
    document: LiveDocument,
) -> Seq<LiveFile> {
    let i = file_index(files, body.file@, 0);
    if i < files.len() {
        files.update(
            i,
            LiveFile { body, generation: (files[i].generation + 1) as u64, document },
        )
    } else {
        files.push(LiveFile { body, generation: FIRST_GENERATION, document })
    }
}

/// A file after expansion: same body, same tokens, the expansion's nodes,
/// and the next generation.
pub open spec fn expanded_file(file: LiveFile, expansion: LiveExpansion) -> LiveFile {
    LiveFile {
        body: file.body,
        generation: (file.generation + 1) as u64,
        document: LiveDocument { nodes: expansion.nodes, tokens: file.document.tokens },
    }
}

/// The files after the expansions were installed, one per file in order:
/// a file without an expansion stays as it is.
pub open spec fn expanded_files(files: Seq<LiveFile>, expansions: Seq<LiveExpansion>) -> Seq<
    LiveFile,
> {
    Seq::new(
        files.len(),
        |k: int|
            if k < expansions.len() {
                expanded_file(files[k], expansions[k])
            } else {
                files[k]
            },
    )
}

/// The errors of the first `n` expansions, in order.
pub open spec fn collected_errors(expansions: Seq<LiveExpansion>, n: int) -> Seq<LiveError>
    decreases n,
{
    if n <= 0 {
        Seq::<LiveError>::empty()
    } else {
        collected_errors(expansions, n - 1) + expansions[n - 1].errors@
    }
}

/// The errors of the expansions that have a file.
pub open spec fn installed_errors(files: Seq<LiveFile>, expansions: Seq<LiveExpansion>) -> Seq<
    LiveError,
> {
    collected_errors(
        expansions,
        if files.len() <= expansions.len() {
            files.len() as int
        } else {
            expansions.len() as int
        },
    )
}

/// Every file that has an expansion can take one more generation.
pub open spec fn can_expand(files: Seq<LiveFile>, expansions: Seq<LiveExpansion>) -> bool {
    forall|k: int|
        0 <= k < files.len() && k < expansions.len() ==> (#[trigger] files[k]).generation
            < u64::MAX
}

/// The file that is registered under `name`, if any, can take one more
/// generation.
pub open spec fn can_register(files: Seq<LiveFile>, name: Seq<char>) -> bool {
    file_index(files, name, 0) < files.len() ==> files[file_index(files, name, 0)].generation
        < u64::MAX
}

/// Whether `ptr` was taken from the current document of its file.
pub open spec fn generation_valid_in(files: Seq<LiveFile>, ptr: LivePtr) -> bool {
    &&& ptr.file_id.0 < files.len()
    &&& files[ptr.file_id.0 as int].generation == ptr.generation
}

/// What resolving `ptr` to a node gives: a pointer whose generation is not
/// current is stale, whatever its index; a current pointer past the last
/// node has no node; any other pointer has the node at its index.
pub open spec fn resolve_in(files: Seq<LiveFile>, ptr: LivePtr) -> Result<
    LiveNode,
    LiveResolveError,
> {
    if !generation_valid_in(files, ptr) {
        Err(LiveResolveError::StaleReference)
    } else if ptr.index >= files[ptr.file_id.0 as int].document.nodes@.len() {
        Err(LiveResolveError::NoSuchNode)
    } else {
        Ok(files[ptr.file_id.0 as int].document.nodes@[ptr.index as int])
    }
}

/// What `file_index` finds is the first file with the name.
pub proof fn lemma_file_index(files: Seq<LiveFile>, name: Seq<char>, from: int)
    requires
        0 <= from,
    ensures
        from <= file_index(files, name, from) || file_index(files, name, from) == files.len(),
        file_index(files, name, from) <= files.len(),
        file_index(files, name, from) < files.len() ==> files[file_index(
            files,
            name,
            from,
        )].body.file@ == name,
        forall|j: int|
            from <= j < file_index(files, name, from) && j < files.len() ==> (
            #[trigger] files[j]).body.file@ != name,
    decreases files.len() - from,
{
    if from < files.len() && files[from].body.file@ != name {
        lemma_file_index(files, name, from + 1);
    }
}

impl LiveRegistry {
    /// A registry without files.
    pub fn new() -> (registry: LiveRegistry)
        ensures
            registry.live_files@.len() == 0,
    {
        LiveRegistry { live_files: Vec::new() }
    }

    /// The identity of the file registered under `name`, if there is one.
    pub fn file_name_to_file_id(&self, name: &str) -> (found: Option<LiveFileId>)
        ensures
            match found {
                Some(id) => id.0 < self.live_files@.len() && id.0 == file_index(
                    self.live_files@,
                    name@,
                    0,
                ),
                None => file_index(self.live_files@, name@, 0) == self.live_files@.len(),
            },
    {
        let key = String::from_str(name);
        let mut i: usize = 0;
        while i < self.live_files.len()
            invariant
                i <= self.live_files.len(),
                key@ == name@,
                file_index(self.live_files@, name@, 0) == file_index(
                    self.live_files@,
                    name@,
                    i as int,
                ),
            decreases self.live_files.len() - i,
        {
            if self.live_files[i].body.file == key {
                return Some(LiveFileId(i));
            }
            i += 1;
        }
        None
    }

    /// Stores the document that the front end parsed from `live_body`.
    ///
    /// A parse failure is handed back and changes nothing. A file that is
    /// registered for the first time is appended with the first generation.
    /// A file that is already registered keeps its identity: its body and
    /// document are replaced and its generation goes up by one. No other
    /// file is touched. The result names the file.
    pub fn register_live_file(
        &mut self,
        live_body: LiveBody,
        parsed: Result<LiveDocument, LiveFileError>,
    ) -> (result: Result<LiveFileId, LiveFileError>)
        requires
            can_register(old(self).live_files@, live_body.file@),
        ensures
            match parsed {
                Err(e) => result == Err::<LiveFileId, LiveFileError>(e) && *final(self) == *old(
                    self,
                ),
                Ok(document) => {
                    &&& result == Ok::<LiveFileId, LiveFileError>(
                        LiveFileId(file_index(old(self).live_files@, live_body.file@, 0) as usize),
                    )
                    &&& final(self).live_files@ == registered_files(
                        old(self).live_files@,
                        live_body,
                        document,
                    )
                },
            },
    {
        match parsed {
            Err(e) => Err(e),
            Ok(document) => {
                match self.file_name_to_file_id(live_body.file.as_str()) {
                    Some(id) => {
                        let generation: u64 = self.live_files[id.0].generation + 1;
                        self.live_files[id.0] = LiveFile { body: live_body, generation, document };
                        Ok(id)
                    },
                    None => {
                        let id = LiveFileId(self.live_files.len());
                        self.live_files.push(
                            LiveFile { body: live_body, generation: FIRST_GENERATION, document },
                        );
                        Ok(id)
                    },
                }
            },
        }
    }

    /// Installs what expanding the documents gave, one expansion per file in
    /// registration order.
    ///
    /// Each file that has an expansion gets the expansion's nodes and the
    /// next generation; its body and tokens stay. Files without an expansion
    /// and expansions without a file are left alone. The errors of the
    /// installed expansions are handed back in order.
    pub fn expand_all_documents(&mut self, expansions: Vec<LiveExpansion>) -> (errors: Vec<
        LiveError,
    >)
        requires
            can_expand(old(self).live_files@, expansions@),
        ensures
            final(self).live_files@ == expanded_files(old(self).live_files@, expansions@),
            errors@ == installed_errors(old(self).live_files@, expansions@),
    {
        let mut errors: Vec<LiveError> = Vec::new();
        let mut i: usize = 0;
        let total: usize = expansions.len();
        for expansion in it: expansions
            invariant
                i == it.index(),
                it.seq() == expansions@,
                total == expansions@.len(),
                self.live_files@.len() == old(self).live_files@.len(),
                forall|k: int|
                    0 <= k < self.live_files@.len() ==> #[trigger] self.live_files@[k] == (if k
                        < i {
                        expanded_file(old(self).live_files@[k], expansions@[k])
                    } else {
                        old(self).live_files@[k]
                    }),
                can_expand(old(self).live_files@, expansions@),
                errors@ == collected_errors(
                    expansions@,
                    if self.live_files@.len() <= i {
                        self.live_files@.len() as int
                    } else {
                        i as int
                    },
                ),
        {
            let mut expansion = expansion;
            if i < self.live_files.len() {
                let generation: u64 = self.live_files[i].generation + 1;
                self.live_files[i].document.nodes = expansion.nodes;
                self.live_files[i].generation = generation;
                errors.append(&mut expansion.errors);
            }
            i += 1;
        }
        assert(self.live_files@ =~= expanded_files(old(self).live_files@, expansions@));
        errors
    }

    /// Whether a document can be registered under `name`: the file with
    /// that name, if there is one, can take one more generation.
    pub fn can_register_file(&self, name: &str) -> (ok: bool)
        ensures
            ok == can_register(self.live_files@, name@),
    {
        match self.file_name_to_file_id(name) {
            Some(id) => self.live_files[id.0].generation < u64::MAX,
            None => true,
        }
    }

    /// Whether `count` expansions can be installed: every file that would
    /// get one can take one more generation.
    pub fn can_expand_documents(&self, count: usize) -> (ok: bool)
        ensures
            ok == (forall|k: int|
                0 <= k < self.live_files@.len() && k < count ==> (
                #[trigger] self.live_files@[k]).generation < u64::MAX),
    {
        let mut i: usize = 0;
        while i < self.live_files.len() && i < count
            invariant
                i <= self.live_files.len(),
                i <= count,
                forall|k: int| 0 <= k < i ==> (#[trigger] self.live_files@[k]).generation < u64::MAX,
            decreases self.live_files.len() - i,
        {
            if self.live_files[i].generation == u64::MAX {
                return false;
            }
            i += 1;
        }
        true
    }

    pub open spec fn spec_generation_valid(&self, ptr: LivePtr) -> bool {
        generation_valid_in(self.live_files@, ptr)
    }

    /// Whether `ptr` was taken from the current document of its file.
    #[verifier::when_used_as_spec(spec_generation_valid)]
    pub fn generation_valid(&self, ptr: LivePtr) -> (valid: bool)
        ensures
            valid == self.spec_generation_valid(ptr),
    {
        ptr.file_id.0 < self.live_files.len() && self.live_files[ptr.file_id.0].generation
            == ptr.generation
    }

    /// What resolving `ptr` to a node gives.
    pub open spec fn spec_ptr_to_node(&self, ptr: LivePtr) -> Result<LiveNode, LiveResolveError> {
        resolve_in(self.live_files@, ptr)
    }

    /// The node that `ptr` points at. A pointer whose generation is not
    /// current is refused as stale, whatever its index.
    pub fn ptr_to_node(&self, ptr: LivePtr) -> (result: Result<&LiveNode, LiveResolveError>)
        ensures
            match result {
                Ok(node) => self.spec_ptr_to_node(ptr) == Ok::<LiveNode, LiveResolveError>(*node),
                Err(e) => self.spec_ptr_to_node(ptr) == Err::<LiveNode, LiveResolveError>(e),
            },
    {
        if !self.generation_valid(ptr) {
            return Err(LiveResolveError::StaleReference);
        }
        let document = &self.live_files[ptr.file_id.0].document;
        if ptr.index >= document.nodes.len() {
            return Err(LiveResolveError::NoSuchNode);
        }
        Ok(&document.nodes[ptr.index])
    }

    /// The document that `ptr` points into. A pointer whose generation is
    /// not current is refused as stale.
    pub fn ptr_to_doc(&self, ptr: LivePtr) -> (result: Result<&LiveDocument, LiveResolveError>)
        ensures
            match result {
                Ok(document) => self.spec_generation_valid(ptr) && *document
                    == self.live_files@[ptr.file_id.0 as int].document,
                Err(e) => !self.spec_generation_valid(ptr) && e == LiveResolveError::StaleReference,
            },
    {
        if !self.generation_valid(ptr) {
            return Err(LiveResolveError::StaleReference);
        }
        Ok(&self.live_files[ptr.file_id.0].document)
    }

    /// The token that `token_id` names, if its file is registered and has
    /// that many tokens.
    pub open spec fn spec_token(&self, token_id: LiveTokenId) -> Option<TokenWithSpan> {
        if token_id.file_id.0 < self.live_files@.len() && token_id.token_index
            < self.live_files@[token_id.file_id.0 as int].document.tokens@.len() {
            Some(
                self.live_files@[token_id.file_id.0 as int].document.tokens@[token_id.token_index as int],
            )
        } else {
            None
        }
    }

    /// The token that `token_id` names, if its file is registered and has
    /// that many tokens.
    pub fn token_id_to_token(&self, token_id: LiveTokenId) -> (found: Option<&TokenWithSpan>)
        ensures
            match found {
                Some(token) => self.spec_token(token_id) == Some(*token),
                None => self.spec_token(token_id) is None,
            },
    {
        if token_id.file_id.0 < self.live_files.len() {
            let document = &self.live_files[token_id.file_id.0].document;
            if token_id.token_index < document.tokens.len() {
                return Some(&document.tokens[token_id.token_index]);
            }
        }
        None
    }

    /// The file name and position that a span stands for: for a token, the
    /// start of the token; for a text position, the position itself. A span
    /// into an unknown file or past the last token has no place.
    pub open spec fn spec_span_place(&self, span: LiveErrorSpan) -> Option<(Seq<char>, TextPos)> {
        match span {
            LiveErrorSpan::Token(token_id) => match self.spec_token(token_id) {
                Some(token) => Some(
                    (self.live_files@[token_id.file_id.0 as int].body.file@, token.start),
                ),
                None => None,
            },
            LiveErrorSpan::Text { file_id, start } => if file_id.0 < self.live_files@.len() {
                Some((self.live_files@[file_id.0 as int].body.file@, start))
            } else {
                None
            },
        }
    }

    /// The file name and position that a span stands for.
    pub fn span_to_place(&self, span: LiveErrorSpan) -> (place: Option<LivePlace>)
        ensures
            match place {
                Some(p) => self.spec_span_place(span) == Some((p.file@, p.pos)),
                None => self.spec_span_place(span) is None,
            },
    {
        match span {
            LiveErrorSpan::Token(token_id) => {
                match self.token_id_to_token(token_id) {
                    Some(token) => Some(
                        LivePlace {
                            file: self.live_files[token_id.file_id.0].body.file.clone(),
                            pos: token.start,
                        },
                    ),
                    None => None,
                }
            },
            LiveErrorSpan::Text { file_id, start } => {
                if file_id.0 < self.live_files.len() {
                    Some(LivePlace { file: self.live_files[file_id.0].body.file.clone(), pos: start })
                } else {
                    None
                }
            },
        }
    }

    /// Ties an error to the file name and position that its span stands
    /// for, where the span has a place.
    pub fn live_error_to_live_file_error(&self, err: LiveError) -> (file_error: LiveFileError)
        ensures
            file_error.origin == err.origin,
            file_error.message == err.message,
            file_error.spec_place() == self.spec_span_place(err.span),
    {
        let place = self.span_to_place(err.span);
        LiveFileError { origin: err.origin, message: err.message, place }
    }
}

/// Generation safety under expansion: a pointer that was current before
/// its document was expanded again is refused as stale afterwards. It never
/// resolves to a node, neither of the old document nor of the new one.
pub proof fn law_expansion_invalidates(
    files: Seq<LiveFile>,
    expansions: Seq<LiveExpansion>,
    ptr: LivePtr,
)
    requires
        generation_valid_in(files, ptr),
        ptr.file_id.0 < expansions.len(),
        can_expand(files, expansions),
    ensures
        !generation_valid_in(expanded_files(files, expansions), ptr),
        resolve_in(expanded_files(files, expansions), ptr) == Err::<LiveNode, LiveResolveError>(
            LiveResolveError::StaleReference,
        ),
{
    assert(files[ptr.file_id.0 as int].generation < u64::MAX);
}

/// Generation safety under registration: a pointer that was current before
/// its file was registered again is refused as stale afterwards, and every
/// pointer into another file resolves as it did.
pub proof fn law_registration_invalidates(
    files: Seq<LiveFile>,
    body: LiveBody,
    document: LiveDocument,
    ptr: LivePtr,
)
    requires
        generation_valid_in(files, ptr),
        can_register(files, body.file@),
    ensures
        file_index(files, body.file@, 0) == ptr.file_id.0 ==> resolve_in(
            registered_files(files, body, document),
            ptr,
        ) == Err::<LiveNode, LiveResolveError>(LiveResolveError::StaleReference),
        file_index(files, body.file@, 0) != ptr.file_id.0 ==> resolve_in(
            registered_files(files, body, document),
            ptr,
        ) == resolve_in(files, ptr),
{
    lemma_file_index(files, body.file@, 0);
}

/// Stable identities: registering and expanding never remove a file, and
/// every file keeps its place and its name, so an identity never comes to
/// stand for another file. Generations never go down.
pub proof fn law_identities_are_stable(
    files: Seq<LiveFile>,
    body: LiveBody,
    document: LiveDocument,
    expansions: Seq<LiveExpansion>,
    i: int,
)
    requires
        0 <= i < files.len(),
        can_register(files, body.file@),
        can_expand(files, expansions),
    ensures
        registered_files(files, body, document).len() >= files.len(),
        registered_files(files, body, document)[i].body.file@ == files[i].body.file@,
        registered_files(files, body, document)[i].generation >= files[i].generation,
        expanded_files(files, expansions).len() == files.len(),
        expanded_files(files, expansions)[i].body == files[i].body,
        expanded_files(files, expansions)[i].generation >= files[i].generation,
{
    lemma_file_index(files, body.file@, 0);
    if i < expansions.len() {
        assert(files[i].generation < u64::MAX);
    }
}

/// Generation safety in general: generations only go up, so a pointer that
/// was current at any time before the generation of its document went up
/// is refused as stale.
pub proof fn law_generation_safety(pre: Seq<LiveFile>, post: Seq<LiveFile>, ptr: LivePtr)
    requires
        generation_valid_in(pre, ptr),
        ptr.file_id.0 < post.len(),
        post[ptr.file_id.0 as int].generation > pre[ptr.file_id.0 as int].generation,
    ensures
        resolve_in(post, ptr) == Err::<LiveNode, LiveResolveError>(
            LiveResolveError::StaleReference,
        ),
{
}

} // verus!
