//! Files that a user attaches to what they say.
use vstd::prelude::*;

use crate::context::ImageDetail;
use crate::json::{text_member, Json, JsonModel};
use crate::json_text::json_document;
use crate::lists::{lemma_empty_content, lemma_filter_step, outcome};
use crate::model::Modeled;
use crate::paths::{named_segments, upload_path_check, validate_upload_relative_path};
use crate::text::{
    chars_of, decimal, decimal_text, glue, glue3, is_blank, lower_ascii, lower_text, pieces,
    same_text, split_on, starts_with, text_of, trim_text, trimmed,
};

verus! {

/// The most images that one prompt may hold. It is the limit of the host's photo picker; more are
/// refused instead of being dropped without a word.
pub const MAX_PROMPT_IMAGE_UPLOADS: usize = 10;

/// The most files that one manifest may name.
pub const MAX_UPLOADS: usize = 32;

/// A local file that is copied into the workspace of a server.
#[derive(Debug, PartialEq, Eq)]
pub struct ServerFileUpload {
    pub local_path: String,
    pub relative_path: String,
}

/// The mathematical content of a [`ServerFileUpload`].
pub struct ServerFileUploadModel {
    pub local_path: Seq<char>,
    pub relative_path: Seq<char>,
}

impl DeepView for ServerFileUpload {
    type V = ServerFileUploadModel;

    open spec fn deep_view(&self) -> ServerFileUploadModel {
        ServerFileUploadModel {
            local_path: self.local_path.deep_view(),
            relative_path: self.relative_path.deep_view(),
        }
    }
}

impl Modeled for ServerFileUpload {
    fn duplicate(&self) -> (r: Self) {
        ServerFileUpload {
            local_path: self.local_path.duplicate(),
            relative_path: self.relative_path.duplicate(),
        }
    }

    fn same(&self, other: &Self) -> (r: bool) {
        self.local_path.same(&other.local_path)
            && self.relative_path.same(&other.relative_path)
    }
}

impl Clone for ServerFileUpload {
    fn clone(&self) -> (r: Self)
        ensures
            r.deep_view() == self.deep_view(),
    {
        self.duplicate()
    }
}

/// One part of what a user says.
#[derive(Debug, PartialEq, Eq)]
pub enum UserInput {
    Text { text: String },
    LocalImage { path: String, detail: Option<ImageDetail> },
}

/// The mathematical content of a [`UserInput`].
pub enum UserInputModel {
    Text { text: Seq<char> },
    LocalImage { path: Seq<char>, detail: Option<ImageDetail> },
}

impl DeepView for UserInput {
    type V = UserInputModel;

    open spec fn deep_view(&self) -> UserInputModel {
        match self {
            UserInput::Text { text } => UserInputModel::Text { text: text.deep_view() },
            UserInput::LocalImage { path, detail } => UserInputModel::LocalImage {
                path: path.deep_view(),
                detail: detail.deep_view(),
            },
        }
    }
}

impl Modeled for UserInput {
    fn duplicate(&self) -> (r: Self) {
        match self {
            UserInput::Text { text } => UserInput::Text { text: text.duplicate() },
            UserInput::LocalImage { path, detail } => UserInput::LocalImage {
                path: path.duplicate(),
                detail: detail.duplicate(),
            },
        }
    }

    fn same(&self, other: &Self) -> (r: bool) {
        match (self, other) {
            (UserInput::Text { text }, UserInput::Text { text: text_other }) => text.same(
                text_other,
            ),
            (
                UserInput::LocalImage { path, detail },
                UserInput::LocalImage { path: path_other, detail: detail_other },
            ) => path.same(path_other) && detail.same(detail_other),
            _ => false,
        }
    }
}

impl Clone for UserInput {
    fn clone(&self) -> (r: Self)
        ensures
            r.deep_view() == self.deep_view(),
    {
        self.duplicate()
    }
}


// ---------------------------------------------------------------------------------------------
// Manifests

/// The text of a problem with a field of an entry.
pub open spec fn entry_problem(index: nat, field: Seq<char>, problem: Seq<char>) -> Seq<char> {
    "uploads_json["@ + decimal_text(index) + ("]."@ + field + (" "@ + problem))
}

/// Whether an earlier upload has the same destination.
pub open spec fn destination_taken(earlier: Seq<ServerFileUploadModel>, path: Seq<char>) -> bool {
    exists|j: int| 0 <= j < earlier.len() && (#[trigger] earlier[j]).relative_path == path
}

/// The upload that an entry names, or its first problem.
pub open spec fn upload_entry(
    index: nat,
    entry: JsonModel,
    earlier: Seq<ServerFileUploadModel>,
) -> Result<ServerFileUploadModel, Seq<char>> {
    match text_member(entry, "local_path"@) {
        None => Err(entry_problem(index, "local_path"@, "must be a string"@)),
        Some(local_path) => match text_member(entry, "relative_path"@) {
            None => Err(entry_problem(index, "relative_path"@, "must be a string"@)),
            Some(relative_path) => if trim_text(local_path).len() == 0 {
                Err(entry_problem(index, "local_path"@, "was empty"@))
            } else if !("/"@.is_prefix_of(local_path)) {
                Err(entry_problem(index, "local_path"@, "must be absolute"@))
            } else {
                match upload_path_check(relative_path) {
                    Err(problem) => Err(entry_problem(index, "relative_path"@, problem)),
                    Ok(_) => if destination_taken(earlier, relative_path) {
                        Err(entry_problem(index, "relative_path"@, "was duplicated"@))
                    } else {
                        Ok(ServerFileUploadModel { local_path, relative_path })
                    },
                }
            },
        },
    }
}

/// The uploads that some entries name, or the first problem.
pub open spec fn upload_entries(entries: Seq<JsonModel>) -> Result<
    Seq<ServerFileUploadModel>,
    Seq<char>,
>
    decreases entries.len(),
{
    if entries.len() == 0 {
        Ok(Seq::empty())
    } else {
        match upload_entries(entries.drop_last()) {
            Err(problem) => Err(problem),
            Ok(earlier) => match upload_entry((entries.len() - 1) as nat, entries.last(), earlier) {
                Err(problem) => Err(problem),
                Ok(upload) => Ok(earlier.push(upload)),
            },
        }
    }
}

/// The uploads that a manifest names.
pub open spec fn manifest_uploads(manifest: JsonModel) -> Result<
    Seq<ServerFileUploadModel>,
    Seq<char>,
> {
    match manifest {
        JsonModel::Array(entries) => if entries.len() > MAX_UPLOADS {
            Err(
                "too many uploads: received "@ + decimal_text(entries.len())
                    + ", maximum is 32"@,
            )
        } else {
            upload_entries(entries)
        },
        _ => Err("uploads_json must be a JSON array"@),
    }
}

/// The uploads that the text of a manifest names. No text names none.
pub open spec fn manifest_text_uploads(text: Seq<char>) -> Result<
    Seq<ServerFileUploadModel>,
    Seq<char>,
> {
    if trim_text(text).len() == 0 {
        Ok(Seq::empty())
    } else {
        match json_document(trim_text(text)) {
            Err(error) => Err("uploads_json was not valid JSON: "@ + error),
            Ok(manifest) => manifest_uploads(manifest),
        }
    }
}

fn problem_text(index: usize, field: &str, problem: &str) -> (r: String)
    ensures
        r@ == entry_problem(index as nat, field@, problem@),
{
    glue3(
        "uploads_json[",
        decimal(index as u64).as_str(),
        glue3("].", field, glue(" ", problem).as_str()).as_str(),
    )
}

fn is_taken(earlier: &Vec<ServerFileUpload>, path: &String) -> (r: bool)
    ensures
        r == destination_taken(earlier.deep_view(), path@),
{
    let ghost model = earlier.deep_view();
    let mut j: usize = 0;
    while j < earlier.len()
        invariant
            j <= earlier@.len(),
            model == earlier.deep_view(),
            model.len() == earlier@.len(),
            forall|k: int| 0 <= k < j ==> (#[trigger] model[k]).relative_path != path@,
        decreases earlier.len() - j,
    {
        assert(model[j as int] == earlier@[j as int].deep_view());
        if earlier[j].relative_path == *path {
            assert(earlier.deep_view()[j as int].relative_path == path@);
            return true;
        }
        j = j + 1;
    }
    false
}

fn read_entry(index: usize, entry: &Json, earlier: &Vec<ServerFileUpload>) -> (r: Result<
    ServerFileUpload,
    String,
>)
    ensures
        outcome(r) == upload_entry(index as nat, entry.deep_view(), earlier.deep_view()),
{
    let local_path = match entry.get_text("local_path") {
        Some(path) => path,
        None => {
            return Err(problem_text(index, "local_path", "must be a string"));
        },
    };
    let relative_path = match entry.get_text("relative_path") {
        Some(path) => path,
        None => {
            return Err(problem_text(index, "relative_path", "must be a string"));
        },
    };
    if is_blank(local_path.as_str()) {
        return Err(problem_text(index, "local_path", "was empty"));
    }
    if !starts_with(local_path.as_str(), "/") {
        return Err(problem_text(index, "local_path", "must be absolute"));
    }
    match validate_upload_relative_path(relative_path.as_str()) {
        Err(problem) => {
            return Err(problem_text(index, "relative_path", problem.as_str()));
        },
        Ok(()) => {},
    }
    if is_taken(earlier, relative_path) {
        return Err(problem_text(index, "relative_path", "was duplicated"));
    }
    Ok(
        ServerFileUpload {
            local_path: local_path.clone(),
            relative_path: relative_path.clone(),
        },
    )
}

/// A problem among the first entries is the problem of all.
proof fn lemma_entry_error(entries: Seq<JsonModel>, i: int)
    requires
        0 <= i <= entries.len(),
        upload_entries(entries.take(i)) is Err,
    ensures
        upload_entries(entries) == upload_entries(entries.take(i)),
    decreases entries.len() - i,
{
    if i < entries.len() {
        assert(entries.take(i + 1).drop_last() =~= entries.take(i));
        lemma_entry_error(entries, i + 1);
    } else {
        assert(entries.take(i) =~= entries);
    }
}

/// The uploads that a manifest names.
pub fn uploads_from_manifest(manifest: &Json) -> (r: Result<Vec<ServerFileUpload>, String>)
    ensures
        outcome(r) == manifest_uploads(manifest.deep_view()),
{
    let entries = match manifest {
        Json::Array(entries) => entries,
        _ => {
            return Err("uploads_json must be a JSON array".to_string());
        },
    };
    let ghost model = entries.deep_view();
    assert(manifest.deep_view()->Array_0 =~= model);
    if entries.len() > MAX_UPLOADS {
        return Err(
            glue3(
                "too many uploads: received ",
                decimal(entries.len() as u64).as_str(),
                ", maximum is 32",
            ),
        );
    }
    let mut uploads: Vec<ServerFileUpload> = Vec::new();
    let mut i: usize = 0;
    proof {
        lemma_empty_content(uploads);
        assert(model.take(0) =~= Seq::empty());
    }
    while i < entries.len()
        invariant
            i <= entries@.len() <= MAX_UPLOADS,
            model == entries.deep_view(),
            model.len() == entries@.len(),
            manifest.deep_view() == JsonModel::Array(model),
            upload_entries(model.take(i as int)) == Ok::<Seq<ServerFileUploadModel>, Seq<char>>(
                uploads.deep_view(),
            ),
        decreases entries.len() - i,
    {
        proof {
            assert(model[i as int] == entries@[i as int].deep_view());
            assert(model.take(i + 1).drop_last() =~= model.take(i as int));
            assert(model.take(i + 1).last() == model[i as int]);
        }
        match read_entry(i, &entries[i], &uploads) {
            Ok(upload) => {
                let ghost before = uploads.deep_view();
                uploads.push(upload);
                assert(uploads.deep_view() =~= before.push(upload.deep_view()));
            },
            Err(problem) => {
                proof {
                    lemma_entry_error(model, i + 1);
                }
                return Err(problem);
            },
        }
        i = i + 1;
    }
    assert(model.take(model.len() as int) =~= model);
    Ok(uploads)
}

/// The uploads that the text of a manifest names. No text names none.
pub fn parse_server_file_uploads(uploads_json: &str) -> (r: Result<Vec<ServerFileUpload>, String>)
    ensures
        outcome(r) == manifest_text_uploads(uploads_json@),
{
    let text = trimmed(uploads_json);
    if text.as_str().is_empty() {
        let none: Vec<ServerFileUpload> = Vec::new();
        proof {
            lemma_empty_content(none);
        }
        return Ok(none);
    }
    match Json::parse(text.as_str()) {
        Err(error) => Err(glue("uploads_json was not valid JSON: ", error.as_str())),
        Ok(manifest) => uploads_from_manifest(&manifest),
    }
}

/// The first upload that is not a regular file.
pub open spec fn first_irregular(regular: Seq<bool>, i: int) -> Option<int>
    decreases regular.len() - i,
{
    if i < 0 || i >= regular.len() {
        None
    } else if !regular[i] {
        Some(i)
    } else {
        first_irregular(regular, i + 1)
    }
}

/// Checks what was found of the local files: each must be a regular file and no symbolic link.
/// `regular` says so of each, in order.
pub fn require_regular_files(regular: &Vec<bool>) -> (r: Result<(), String>)
    ensures
        outcome(r) == match first_irregular(regular@, 0) {
            None => Ok(()),
            Some(i) => Err(
                entry_problem(
                    i as nat,
                    "local_path"@,
                    "must be a regular non-symlink file"@,
                ),
            ),
        },
{
    let mut i: usize = 0;
    while i < regular.len()
        invariant
            i <= regular@.len(),
            first_irregular(regular@, 0) == first_irregular(regular@, i as int),
        decreases regular.len() - i,
    {
        if !regular[i] {
            return Err(problem_text(i, "local_path", "must be a regular non-symlink file"));
        }
        i = i + 1;
    }
    Ok(())
}

/// No two accepted uploads have the same destination, and every destination is accepted.
pub proof fn law_destinations_are_distinct(entries: Seq<JsonModel>)
    ensures
        upload_entries(entries) matches Ok(uploads) ==> {
            &&& uploads.len() == entries.len()
            &&& forall|i: int|
                0 <= i < uploads.len() ==> upload_path_check(
                    (#[trigger] uploads[i]).relative_path,
                ) is Ok
            &&& forall|i: int, j: int|
                0 <= i < j < uploads.len() ==> (#[trigger] uploads[i]).relative_path != (
                #[trigger] uploads[j]).relative_path
        },
    decreases entries.len(),
{
    if entries.len() > 0 {
        law_destinations_are_distinct(entries.drop_last());
        if let Ok(uploads) = upload_entries(entries) {
            let earlier = upload_entries(entries.drop_last())->Ok_0;
            assert(uploads == earlier.push(uploads.last()));
            assert forall|i: int, j: int| 0 <= i < j < uploads.len() implies (
            #[trigger] uploads[i]).relative_path != (#[trigger] uploads[j]).relative_path by {
                assert(uploads[i] == earlier[i]);
                if j < earlier.len() {
                    assert(uploads[j] == earlier[j]);
                }
            }
        }
    }
}

// ---------------------------------------------------------------------------------------------
// Images

/// The name of the file at the end of a path.
pub open spec fn file_name(path: Seq<char>) -> Option<Seq<char>> {
    let names = named_segments(path);
    if names.len() == 0 || names.last() == ".."@ {
        None
    } else {
        Some(names.last())
    }
}

/// Whether the last dot of a name stands at a position.
pub open spec fn last_dot(name: Seq<char>, i: int) -> bool {
    0 <= i < name.len() && name[i] == '.' && forall|j: int| i < j < name.len() ==> name[j] != '.'
}

/// Whether a name ends in a dot and the given extension, and has something before the dot.
pub open spec fn has_extension(name: Seq<char>, extension: Seq<char>) -> bool {
    exists|i: int| 0 < i && last_dot(name, i) && lower_text(name.skip(i + 1)) == extension
}

/// Whether the file at the end of a path is an image that the model can be shown.
pub open spec fn supported_image(path: Seq<char>) -> bool {
    match file_name(path) {
        None => false,
        Some(name) => {
            ||| has_extension(name, "png"@)
            ||| has_extension(name, "jpg"@)
            ||| has_extension(name, "jpeg"@)
            ||| has_extension(name, "gif"@)
            ||| has_extension(name, "webp"@)
        },
    }
}

fn find_file_name(path: &str) -> (r: Option<String>)
    ensures
        r.deep_view() == file_name(path@),
{
    let segments = split_on(path, '/');
    let ghost model = segments.deep_view();
    let ghost pred = |part: Seq<char>| part.len() > 0 && part != "."@;
    let mut names: Vec<String> = Vec::new();
    let mut i: usize = 0;
    proof {
        lemma_empty_content(names);
        reveal(Seq::filter);
        assert(model.take(0).filter(pred) =~= Seq::empty());
    }
    while i < segments.len()
        invariant
            i <= segments@.len(),
            model == segments.deep_view(),
            model.len() == segments@.len(),
            model == pieces(path@, '/'),
            pred == (|part: Seq<char>| part.len() > 0 && part != "."@),
            names.deep_view() == model.take(i as int).filter(pred),
        decreases segments.len() - i,
    {
        proof {
            assert(model[i as int] == segments@[i as int]@);
            lemma_filter_step(model, pred, i as int);
        }
        let part = &segments[i];
        if !part.as_str().is_empty() && !same_text(part.as_str(), ".") {
            let ghost before = names.deep_view();
            names.push(part.clone());
            assert(names.deep_view() =~= before.push(part@));
        }
        i = i + 1;
    }
    assert(model.take(model.len() as int) =~= model);
    if names.len() == 0 {
        return None;
    }
    assert(names.deep_view().last() == names@[names@.len() - 1]@);
    let name = &names[names.len() - 1];
    if same_text(name.as_str(), "..") {
        return None;
    }
    Some(name.clone())
}

/// The extension of a name in lower case, where it has one.
fn find_extension(name: &str) -> (r: Option<String>)
    ensures
        r is Some <==> exists|i: int| 0 < i && #[trigger] last_dot(name@, i),
        r matches Some(extension) ==> exists|i: int|
            0 < i && #[trigger] last_dot(name@, i) && extension@ == lower_text(name@.skip(i + 1)),
{
    let v = chars_of(name);
    let mut i: usize = v.len();
    while i > 0
        invariant
            i <= v@.len(),
            v@ == name@,
            forall|j: int| i <= j < v@.len() ==> v@[j] != '.',
        decreases i,
    {
        i = i - 1;
        if v[i] == '.' {
            assert(last_dot(name@, i as int));
            if i == 0 {
                assert forall|k: int| 0 < k implies !last_dot(name@, k) by {}
                return None;
            }
            let rest = text_of(&v, i + 1, v.len());
            assert(rest@ =~= name@.skip(i + 1));
            return Some(lower_ascii(rest.as_str()));
        }
    }
    None
}

/// A name has one extension.
proof fn lemma_one_extension(name: Seq<char>, i: int, extension: Seq<char>)
    requires
        0 < i,
        last_dot(name, i),
    ensures
        has_extension(name, extension) <==> lower_text(name.skip(i + 1)) == extension,
{
    if has_extension(name, extension) {
        let k = choose|k: int|
            0 < k && last_dot(name, k) && lower_text(name.skip(k + 1)) == extension;
        assert(k == i);
    }
}

/// Whether the file at the end of a path is an image that the model can be shown.
pub fn is_supported_image_upload(relative_path: &str) -> (r: bool)
    ensures
        r == supported_image(relative_path@),
{
    let name = match find_file_name(relative_path) {
        Some(name) => name,
        None => {
            return false;
        },
    };
    let extension = match find_extension(name.as_str()) {
        Some(extension) => extension,
        None => {
            return false;
        },
    };
    proof {
        let i = choose|i: int|
            0 < i && #[trigger] last_dot(name@, i) && extension@ == lower_text(name@.skip(i + 1));
        lemma_one_extension(name@, i, "png"@);
        lemma_one_extension(name@, i, "jpg"@);
        lemma_one_extension(name@, i, "jpeg"@);
        lemma_one_extension(name@, i, "gif"@);
        lemma_one_extension(name@, i, "webp"@);
    }
    let extension = extension.as_str();
    same_text(extension, "png") || same_text(extension, "jpg") || same_text(extension, "jpeg")
        || same_text(extension, "gif") || same_text(extension, "webp")
}

/// The images among some uploads, in order.
pub open spec fn images_of(uploads: Seq<ServerFileUploadModel>) -> Seq<ServerFileUploadModel> {
    uploads.filter(|upload: ServerFileUploadModel| supported_image(upload.relative_path))
}

/// The images of a prompt. More than the limit are refused.
pub open spec fn prompt_images(uploads: Seq<ServerFileUploadModel>) -> Result<
    Seq<ServerFileUploadModel>,
    Seq<char>,
> {
    if images_of(uploads).len() > MAX_PROMPT_IMAGE_UPLOADS {
        Err(
            "too many prompt images: received "@ + decimal_text(images_of(uploads).len())
                + ", maximum is 10"@,
        )
    } else {
        Ok(images_of(uploads))
    }
}

/// The images among some uploads, in order. More than the limit are refused.
pub fn prompt_image_uploads<'a>(uploads: &'a [ServerFileUpload]) -> (r: Result<
    Vec<&'a ServerFileUpload>,
    String,
>)
    ensures
        outcome(r) == prompt_images(uploads.deep_view()),
{
    let ghost model = uploads.deep_view();
    let ghost pred = |upload: ServerFileUploadModel| supported_image(upload.relative_path);
    let mut images: Vec<&'a ServerFileUpload> = Vec::new();
    let mut i: usize = 0;
    proof {
        lemma_empty_content(images);
        reveal(Seq::filter);
        assert(model.take(0).filter(pred) =~= Seq::empty());
    }
    while i < uploads.len()
        invariant
            i <= uploads@.len(),
            model == uploads.deep_view(),
            model.len() == uploads@.len(),
            pred == (|upload: ServerFileUploadModel| supported_image(upload.relative_path)),
            images.deep_view() == model.take(i as int).filter(pred),
        decreases uploads.len() - i,
    {
        let upload = &uploads[i];
        proof {
            assert(model[i as int] == upload.deep_view());
            lemma_filter_step(model, pred, i as int);
        }
        if is_supported_image_upload(upload.relative_path.as_str()) {
            let ghost before = images.deep_view();
            images.push(upload);
            assert(images.deep_view() =~= before.push(upload.deep_view()));
        }
        i = i + 1;
    }
    assert(model.take(model.len() as int) =~= model);
    if images.len() > MAX_PROMPT_IMAGE_UPLOADS {
        return Err(
            glue3(
                "too many prompt images: received ",
                decimal(images.len() as u64).as_str(),
                ", maximum is 10",
            ),
        );
    }
    Ok(images)
}

/// What a user says with some images: the text, and the images behind it.
pub open spec fn user_input(text: Seq<char>, images: Seq<ServerFileUploadModel>) -> Seq<
    UserInputModel,
> {
    seq![UserInputModel::Text { text }] + images.map_values(
        |image: ServerFileUploadModel|
            UserInputModel::LocalImage { path: image.local_path, detail: Some(ImageDetail::Auto) },
    )
}

/// What a user says with some uploads. Files that are no images stay in the workspace.
pub fn steering_user_input(text: String, uploads: &[ServerFileUpload]) -> (r: Result<
    Vec<UserInput>,
    String,
>)
    ensures
        outcome(r) == match prompt_images(uploads.deep_view()) {
            Err(problem) => Err(problem),
            Ok(images) => Ok(user_input(text@, images)),
        },
{
    let images = match prompt_image_uploads(uploads) {
        Ok(images) => images,
        Err(problem) => {
            return Err(problem);
        },
    };
    let ghost model = images.deep_view();
    let ghost shown = |image: ServerFileUploadModel|
        UserInputModel::LocalImage { path: image.local_path, detail: Some(ImageDetail::Auto) };
    let ghost said = text@;
    let mut items: Vec<UserInput> = Vec::new();
    items.push(UserInput::Text { text });
    let mut i: usize = 0;
    assert(items.deep_view() =~= seq![UserInputModel::Text { text: said }] + model.take(
        0,
    ).map_values(shown));
    while i < images.len()
        invariant
            i <= images@.len(),
            model == images.deep_view(),
            model.len() == images@.len(),
            shown == (|image: ServerFileUploadModel|
                UserInputModel::LocalImage {
                    path: image.local_path,
                    detail: Some(ImageDetail::Auto),
                }),
            items.deep_view() == seq![UserInputModel::Text { text: said }] + model.take(
                i as int,
            ).map_values(shown),
        decreases images.len() - i,
    {
        let ghost before = items.deep_view();
        let item = UserInput::LocalImage {
            path: images[i].local_path.clone(),
            detail: Some(ImageDetail::Auto),
        };
        items.push(item);
        proof {
            assert(model[i as int] == images@[i as int].deep_view());
            assert(items.deep_view() =~= before.push(shown(model[i as int])));
            assert(model.take(i + 1).map_values(shown) =~= model.take(i as int).map_values(
                shown,
            ).push(shown(model[i as int])));
        }
        i = i + 1;
        assert(items.deep_view() =~= seq![UserInputModel::Text { text: said }] + model.take(
            i as int,
        ).map_values(shown));
    }
    assert(model.take(model.len() as int) =~= model);
    Ok(items)
}

} // verus!
