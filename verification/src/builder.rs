//! Describing a project directory, then laying it out as filesystem steps.
use crate::paths::{join_path, joined_path};
use crate::project::{Project, ProjectModel};
use crate::text::{text_pairs, texts};
use vstd::prelude::*;

verus! {

/// The marker file created at the root of every project.
pub const MANIFEST_FILE: &'static str = "Cargo.toml";

/// The process-wide variable through which a package name override reaches
/// the commands that run later.
pub const PACKAGE_NAME_VAR: &'static str = "PACKAGE_NAME";

/// One filesystem or environment action of a layout, in the model.
pub enum StepModel {
    WriteFile { path: Seq<char>, contents: Seq<char> },
    CreateDir { path: Seq<char> },
    SetEnv { key: Seq<char>, value: Seq<char> },
}

/// One action to perform when realizing a project.
///
/// * `WriteFile` creates the file at `path`, truncating one that is there,
///   and writes `contents` to it.
/// * `CreateDir` creates the single directory `path`; its parent must exist
///   and `path` itself must not.
/// * `SetEnv` sets the variable `key` to `value` for the whole process.
#[derive(Debug, PartialEq, Eq)]
pub enum Step {
    WriteFile { path: String, contents: String },
    CreateDir { path: String },
    SetEnv { key: String, value: String },
}

impl View for Step {
    type V = StepModel;

    open spec fn view(&self) -> StepModel {
        match self {
            Step::WriteFile { path, contents } => StepModel::WriteFile {
                path: path@,
                contents: contents@,
            },
            Step::CreateDir { path } => StepModel::CreateDir { path: path@ },
            Step::SetEnv { key, value } => StepModel::SetEnv { key: key@, value: value@ },
        }
    }
}

/// The models of a sequence of steps, in order.
pub open spec fn step_views(steps: Seq<Step>) -> Seq<StepModel> {
    steps.map_values(|s: Step| s@)
}

/// What a [`ProjectBuilder`] has been told so far.
///
/// `folders` and `files` are sets kept in order of first registration: no
/// folder occurs twice, and no path occurs twice among the files. Each file
/// is a pair of its path and its contents.
pub struct BuilderModel {
    pub name: Seq<char>,
    pub folders: Seq<Seq<char>>,
    pub files: Seq<(Seq<char>, Seq<char>)>,
    pub package_name: Option<Seq<char>>,
}

impl BuilderModel {
    /// A description with nothing registered.
    pub open spec fn fresh(name: Seq<char>) -> Self {
        BuilderModel { name, folders: seq![], files: seq![], package_name: None }
    }

    /// The paths of the registered files, in order of first registration.
    pub open spec fn file_paths(self) -> Seq<Seq<char>> {
        self.files.map_values(|entry: (Seq<char>, Seq<char>)| entry.0)
    }

    /// No folder occurs twice, and no path occurs twice among the files.
    pub open spec fn well_formed(self) -> bool {
        self.folders.no_duplicates() && self.file_paths().no_duplicates()
    }

    /// The description with the package name override set to `name`.
    pub open spec fn with_package_name(self, name: Seq<char>) -> Self {
        BuilderModel { package_name: Some(name), ..self }
    }

    /// The description with the folder `name` registered.
    pub open spec fn with_folder(self, name: Seq<char>) -> Self {
        if self.folders.contains(name) {
            self
        } else {
            BuilderModel { folders: self.folders.push(name), ..self }
        }
    }

    /// The description with the file `name` registered with `contents`: in
    /// place of what was registered under `name` before, if anything was,
    /// and after all other files otherwise.
    pub open spec fn with_file(self, name: Seq<char>, contents: Seq<char>) -> Self {
        if self.file_paths().contains(name) {
            BuilderModel {
                files: self.files.map_values(
                    |entry: (Seq<char>, Seq<char>)|
                        if entry.0 == name {
                            (name, contents)
                        } else {
                            entry
                        },
                ),
                ..self
            }
        } else {
            BuilderModel { files: self.files.push((name, contents)), ..self }
        }
    }

    /// The step that creates the empty manifest under `root`.
    pub open spec fn manifest_step(root: Seq<char>) -> StepModel {
        StepModel::WriteFile { path: joined_path(root, MANIFEST_FILE@), contents: seq![] }
    }

    /// One `CreateDir` per registered folder, in order of registration.
    pub open spec fn folder_steps(self, root: Seq<char>) -> Seq<StepModel> {
        Seq::new(
            self.folders.len(),
            |i: int| StepModel::CreateDir { path: joined_path(root, self.folders[i]) },
        )
    }

    /// One `WriteFile` per registered file, in order of registration.
    pub open spec fn file_steps(self, root: Seq<char>) -> Seq<StepModel> {
        Seq::new(
            self.files.len(),
            |i: int|
                StepModel::WriteFile {
                    path: joined_path(root, self.files[i].0),
                    contents: self.files[i].1,
                },
        )
    }

    /// The step that publishes the package name override, if there is one.
    pub open spec fn env_steps(self) -> Seq<StepModel> {
        match self.package_name {
            Some(name) => seq![StepModel::SetEnv { key: PACKAGE_NAME_VAR@, value: name }],
            None => seq![],
        }
    }

    /// Everything to do under `root` to realize the description: the
    /// manifest, then the folders, then the files, then the override.
    pub open spec fn layout(self, root: Seq<char>) -> Seq<StepModel> {
        seq![Self::manifest_step(root)] + self.folder_steps(root) + self.file_steps(root)
            + self.env_steps()
    }
}

/// Registering a file adds its path to the registered paths unless it is
/// among them already, and moves no path.
pub proof fn lemma_file_paths_after_registration(
    builder: BuilderModel,
    name: Seq<char>,
    contents: Seq<char>,
)
    ensures
        builder.with_file(name, contents).file_paths() == if builder.file_paths().contains(name) {
            builder.file_paths()
        } else {
            builder.file_paths().push(name)
        },
{
    let after = builder.with_file(name, contents);
    if builder.file_paths().contains(name) {
        assert(after.file_paths() =~= builder.file_paths());
    } else {
        assert(after.file_paths() =~= builder.file_paths().push(name));
    }
}

/// A fresh description is well formed, and every registration keeps it so.
pub proof fn lemma_registration_keeps_well_formed(
    builder: BuilderModel,
    name: Seq<char>,
    contents: Seq<char>,
)
    requires
        builder.well_formed(),
    ensures
        BuilderModel::fresh(name).well_formed(),
        builder.with_package_name(name).well_formed(),
        builder.with_folder(name).well_formed(),
        builder.with_file(name, contents).well_formed(),
{
    assert(BuilderModel::fresh(name).file_paths() =~= seq![]);
    lemma_file_paths_after_registration(builder, name, contents);
}

/// Registering a folder makes it a registered folder, keeps every folder and
/// file registered before, and changes nothing when repeated.
pub proof fn lemma_folder_registered(builder: BuilderModel, name: Seq<char>)
    ensures
        builder.with_folder(name).folders.contains(name),
        forall|other: Seq<char>|
            builder.folders.contains(other)
                ==> #[trigger] builder.with_folder(name).folders.contains(other),
        builder.with_folder(name).files == builder.files,
        builder.with_folder(name).with_folder(name) == builder.with_folder(name),
{
    let after = builder.with_folder(name);
    if !builder.folders.contains(name) {
        assert(after.folders[builder.folders.len() as int] == name);
        assert forall|other: Seq<char>| builder.folders.contains(other) implies #[trigger]
            after.folders.contains(other) by {
            let i = choose|i: int| 0 <= i < builder.folders.len() && builder.folders[i] == other;
            assert(after.folders[i] == other);
        }
    }
}

/// Registering a file makes it a registered file with the contents given
/// and with no others, keeps every folder and every file of another path as
/// registered before, and changes nothing when repeated.
pub proof fn lemma_file_registered(builder: BuilderModel, name: Seq<char>, contents: Seq<char>)
    ensures
        builder.with_file(name, contents).files.contains((name, contents)),
        forall|text: Seq<char>| #[trigger]
            builder.with_file(name, contents).files.contains((name, text)) ==> text == contents,
        forall|other: Seq<char>, text: Seq<char>|
            other != name ==> (builder.files.contains((other, text))
                <==> #[trigger] builder.with_file(name, contents).files.contains((other, text))),
        builder.with_file(name, contents).folders == builder.folders,
        builder.with_file(name, contents).with_file(name, contents) == builder.with_file(
            name,
            contents,
        ),
{
    let after = builder.with_file(name, contents);
    if builder.file_paths().contains(name) {
        let i = choose|i: int|
            0 <= i < builder.file_paths().len() && builder.file_paths()[i] == name;
        assert(after.files[i] == (name, contents));
    } else {
        assert(after.files[builder.files.len() as int] == (name, contents));
    }
    assert forall|text: Seq<char>| #[trigger] after.files.contains((name, text)) implies text
        == contents by {
        let j = choose|j: int| 0 <= j < after.files.len() && after.files[j] == (name, text);
        if j < builder.files.len() {
            assert(builder.file_paths()[j] == builder.files[j].0);
        }
    }
    assert forall|other: Seq<char>, text: Seq<char>| other != name implies (
        builder.files.contains((other, text))
            <==> #[trigger] after.files.contains((other, text))) by {
        if builder.files.contains((other, text)) {
            let j = choose|j: int|
                0 <= j < builder.files.len() && builder.files[j] == (other, text);
            assert(after.files[j] == (other, text));
        }
        if after.files.contains((other, text)) {
            let j = choose|j: int| 0 <= j < after.files.len() && after.files[j] == (other, text);
            assert(builder.files[j] == (other, text));
        }
    }
    assert(after.file_paths().contains(name)) by {
        let j = choose|j: int| 0 <= j < after.files.len() && after.files[j] == (name, contents);
        assert(after.file_paths()[j] == name);
    }
    assert forall|j: int| 0 <= j < after.files.len() && after.files[j].0 == name implies
        after.files[j] == (name, contents) by {
        assert(after.files.contains((name, after.files[j].1)));
    }
    assert(after.with_file(name, contents).files =~= after.files);
}

/// Of two registrations of one path, the later one stands: the outcome is
/// that of the later registration alone.
pub proof fn lemma_later_file_wins(
    builder: BuilderModel,
    name: Seq<char>,
    earlier: Seq<char>,
    later: Seq<char>,
)
    ensures
        builder.with_file(name, earlier).with_file(name, later) == builder.with_file(name, later),
{
    let once = builder.with_file(name, earlier);
    lemma_file_registered(builder, name, earlier);
    assert(once.file_paths().contains(name)) by {
        let j = choose|j: int| 0 <= j < once.files.len() && once.files[j] == (name, earlier);
        assert(once.file_paths()[j] == name);
    }
    let twice = once.with_file(name, later);
    let direct = builder.with_file(name, later);
    if builder.file_paths().contains(name) {
        assert(twice.files =~= direct.files);
    } else {
        assert forall|j: int| 0 <= j < builder.files.len() implies builder.files[j].0 != name by {
            assert(builder.file_paths()[j] == builder.files[j].0);
        }
        assert(twice.files =~= direct.files);
    }
}

/// The layout creates the manifest, every registered folder, and every
/// registered file with exactly the contents it was registered with.
pub proof fn lemma_layout_covers_registrations(builder: BuilderModel, root: Seq<char>)
    ensures
        builder.layout(root).contains(BuilderModel::manifest_step(root)),
        forall|name: Seq<char>| #[trigger]
            builder.folders.contains(name) ==> builder.layout(root).contains(
                StepModel::CreateDir { path: joined_path(root, name) },
            ),
        forall|name: Seq<char>, contents: Seq<char>| #[trigger]
            builder.files.contains((name, contents)) ==> builder.layout(root).contains(
                StepModel::WriteFile { path: joined_path(root, name), contents },
            ),
{
    let layout = builder.layout(root);
    let n = builder.folders.len() as int;
    assert(layout[0] == BuilderModel::manifest_step(root));
    assert forall|name: Seq<char>| #[trigger] builder.folders.contains(name) implies
        layout.contains(StepModel::CreateDir { path: joined_path(root, name) }) by {
        let i = choose|i: int| 0 <= i < builder.folders.len() && builder.folders[i] == name;
        assert(layout[1 + i] == builder.folder_steps(root)[i]);
    }
    assert forall|name: Seq<char>, contents: Seq<char>| #[trigger]
        builder.files.contains((name, contents)) implies
        layout.contains(StepModel::WriteFile { path: joined_path(root, name), contents }) by {
        let i = choose|i: int| 0 <= i < builder.files.len() && builder.files[i] == (name, contents);
        assert(layout[1 + n + i] == builder.file_steps(root)[i]);
    }
}

/// The layout holds nothing but what was asked for: each of its steps is the
/// manifest, the creation of a registered folder, the writing of a registered
/// file with its registered contents, or the publication of the package name
/// override.
pub proof fn lemma_layout_holds_nothing_else(
    builder: BuilderModel,
    root: Seq<char>,
    step: StepModel,
)
    requires
        builder.layout(root).contains(step),
    ensures
        match step {
            StepModel::WriteFile { path, contents } => step == BuilderModel::manifest_step(root)
                || exists|name: Seq<char>| #[trigger]
                    builder.files.contains((name, contents)) && path == joined_path(root, name),
            StepModel::CreateDir { path } => exists|name: Seq<char>| #[trigger]
                builder.folders.contains(name) && path == joined_path(root, name),
            StepModel::SetEnv { key, value } => key == PACKAGE_NAME_VAR@ && builder.package_name
                == Some(value),
        },
{
    let layout = builder.layout(root);
    let n = builder.folders.len() as int;
    let m = builder.files.len() as int;
    let idx = choose|idx: int| 0 <= idx < layout.len() && layout[idx] == step;
    if idx == 0 {
        assert(step == BuilderModel::manifest_step(root));
    } else if idx < 1 + n {
        let name = builder.folders[idx - 1];
        assert(step == builder.folder_steps(root)[idx - 1]);
        assert(builder.folders.contains(name));
    } else if idx < 1 + n + m {
        let entry = builder.files[idx - 1 - n];
        assert(step == builder.file_steps(root)[idx - 1 - n]);
        assert(builder.files.contains((entry.0, entry.1)));
        assert(step matches StepModel::WriteFile { path, contents } && contents == entry.1 && path
            == joined_path(root, entry.0));
    } else {
        assert(step == builder.env_steps()[idx - 1 - n - m]);
    }
}

/// Where a file was registered and neither the manifest nor a file of
/// another name lies at the same place under `root`, every write to that
/// place in the layout carries exactly the contents the file was registered
/// with.
pub proof fn lemma_sole_file_keeps_its_contents(
    builder: BuilderModel,
    root: Seq<char>,
    name: Seq<char>,
    contents: Seq<char>,
    step: StepModel,
)
    requires
        builder.well_formed(),
        builder.files.contains((name, contents)),
        joined_path(root, MANIFEST_FILE@) != joined_path(root, name),
        forall|other: Seq<char>| #[trigger]
            builder.file_paths().contains(other) && joined_path(root, other) == joined_path(
                root,
                name,
            ) ==> other == name,
        builder.layout(root).contains(step),
        step matches StepModel::WriteFile { path, .. } && path == joined_path(root, name),
    ensures
        step == (StepModel::WriteFile { path: joined_path(root, name), contents }),
{
    lemma_layout_holds_nothing_else(builder, root, step);
    let place = joined_path(root, name);
    let text = step->WriteFile_contents;
    assert(exists|other: Seq<char>| #[trigger]
        builder.files.contains((other, text)) && place == joined_path(root, other));
    let other = choose|other: Seq<char>| #[trigger]
        builder.files.contains((other, text)) && place == joined_path(root, other);
    let i = choose|i: int| 0 <= i < builder.files.len() && builder.files[i] == (other, text);
    let j = choose|j: int| 0 <= j < builder.files.len() && builder.files[j] == (name, contents);
    assert(builder.file_paths()[i] == other);
    assert(builder.file_paths()[j] == name);
    assert(builder.file_paths().contains(other));
    assert(i == j);
}

/// A description of the initial state of a project directory.
pub struct ProjectBuilder {
    name: String,
    folders: Vec<String>,
    files: Vec<(String, String)>,
    package_name: Option<String>,
}

/// A project together with the steps that bring its directory into being.
pub struct Fixture {
    pub project: Project,
    pub steps: Vec<Step>,
}

impl View for ProjectBuilder {
    type V = BuilderModel;

    closed spec fn view(&self) -> BuilderModel {
        BuilderModel {
            name: self.name@,
            folders: texts(self.folders@),
            files: text_pairs(self.files@),
            package_name: match self.package_name {
                Some(name) => Some(name@),
                None => None,
            },
        }
    }
}

impl ProjectBuilder {
    #[verifier::type_invariant]
    spec fn no_entry_twice(&self) -> bool {
        self@.well_formed()
    }

    /// Starts a description named `name`, with nothing registered.
    pub fn new(name: &str) -> (builder: Self)
        ensures
            builder@ == BuilderModel::fresh(name@),
            builder@.well_formed(),
    {
        let builder = ProjectBuilder {
            name: name.to_owned(),
            folders: Vec::new(),
            files: Vec::new(),
            package_name: None,
        };
        assert(builder@.folders =~= seq![]);
        assert(builder@.files =~= seq![]);
        builder
    }

    /// The name the description was started with: the prefix under which the
    /// project directory is to be created.
    pub fn name(&self) -> (name: &str)
        ensures
            name@ == self@.name,
    {
        self.name.as_str()
    }

    /// Records `name` as the binary to run in place of the default one. The
    /// filesystem layout is not affected.
    pub fn package_name(self, name: &str) -> (builder: Self)
        ensures
            builder@ == self@.with_package_name(name@),
            builder@.well_formed(),
    {
        proof {
            use_type_invariant(&self);
        }
        ProjectBuilder {
            name: self.name,
            folders: self.folders,
            files: self.files,
            package_name: Some(name.to_owned()),
        }
    }

    /// Registers the folder `name`, given relative to the project root.
    /// Registering a folder again changes nothing.
    pub fn folder(self, name: &str) -> (builder: Self)
        ensures
            builder@ == self@.with_folder(name@),
            builder@.well_formed(),
    {
        proof {
            use_type_invariant(&self);
        }
        let name = name.to_owned();
        if holds_text(&self.folders, &name) {
            self
        } else {
            let ghost before = self@;
            let mut folders = self.folders;
            folders.push(name);
            assert(texts(folders@) =~= before.folders.push(name@));
            ProjectBuilder {
                name: self.name,
                folders,
                files: self.files,
                package_name: self.package_name,
            }
        }
    }

    /// Registers the file `name`, given relative to the project root, to be
    /// written with `contents`.
    ///
    /// A path is registered once: registering it again replaces the contents
    /// registered before, so that the last registration of a path is the one
    /// that is written.
    pub fn file(self, name: &str, contents: &str) -> (builder: Self)
        ensures
            builder@ == self@.with_file(name@, contents@),
            builder@.well_formed(),
    {
        proof {
            use_type_invariant(&self);
        }
        let ghost before = self@;
        let name = name.to_owned();
        let contents = contents.to_owned();
        let mut files = self.files;
        match position_of_path(&files, &name) {
            Some(i) => {
                files.set(i, (name, contents));
                assert(text_pairs(files@) =~= before.with_file(name@, contents@).files) by {
                    assert forall|j: int| 0 <= j < before.files.len() && j != i implies
                        before.files[j].0 != name@ by {
                        assert(before.file_paths()[j] == before.files[j].0);
                        assert(before.file_paths()[i as int] == name@);
                    }
                    assert(before.file_paths()[i as int] == name@);
                }
                assert(BuilderModel { files: text_pairs(files@), ..before }.file_paths()
                    =~= before.file_paths());
            },
            None => {
                files.push((name, contents));
                assert(!before.file_paths().contains(name@)) by {
                    if before.file_paths().contains(name@) {
                        let j = choose|j: int|
                            0 <= j < before.file_paths().len() && before.file_paths()[j] == name@;
                        assert(before.files[j].0 == name@);
                    }
                }
                assert(text_pairs(files@) =~= before.files.push((name@, contents@)));
                assert(BuilderModel { files: text_pairs(files@), ..before }.file_paths()
                    =~= before.file_paths().push(name@));
            },
        }
        ProjectBuilder {
            name: self.name,
            folders: self.folders,
            files,
            package_name: self.package_name,
        }
    }

    /// Lays the description out under `root`, the absolute path of a fresh,
    /// empty directory.
    ///
    /// The steps are those of [`BuilderModel::layout`], to be carried out in
    /// order: the empty manifest first, then one directory per registered
    /// folder, then one file per registered file, then the package name
    /// override if one was given. The project returned is rooted at `root`
    /// and keeps the builder's name.
    pub fn build(self, root: &str) -> (fixture: Fixture)
        ensures
            fixture.project@ == (ProjectModel { root: root@, name: self@.name }),
            step_views(fixture.steps@) == self@.layout(root@),
    {
        let ghost model = self@;
        let mut steps: Vec<Step> = Vec::new();
        steps.push(
            Step::WriteFile { path: join_path(root, MANIFEST_FILE), contents: String::new() },
        );

        let folders = self.folders;
        let mut i: usize = 0;
        while i < folders.len()
            invariant
                i <= folders.len(),
                texts(folders@) == model.folders,
                steps.len() == 1 + i,
                steps[0]@ == BuilderModel::manifest_step(root@),
                forall|j: int|
                    0 <= j < i ==> (#[trigger] steps[1 + j])@ == model.folder_steps(root@)[j],
            decreases folders.len() - i,
        {
            steps.push(Step::CreateDir { path: join_path(root, folders[i].as_str()) });
            i += 1;
        }

        let files = self.files;
        let mut k: usize = 0;
        while k < files.len()
            invariant
                k <= files.len(),
                text_pairs(files@) == model.files,
                model.folders.len() == folders.len(),
                steps.len() == 1 + folders.len() + k,
                steps[0]@ == BuilderModel::manifest_step(root@),
                forall|j: int|
                    0 <= j < folders.len() ==> (#[trigger] steps[1 + j])@
                        == model.folder_steps(root@)[j],
                forall|j: int|
                    0 <= j < k ==> (#[trigger] steps[1 + folders.len() + j])@
                        == model.file_steps(root@)[j],
            decreases files.len() - k,
        {
            let contents = files[k].1.clone();
            steps.push(Step::WriteFile { path: join_path(root, files[k].0.as_str()), contents });
            k += 1;
        }

        let ghost placed = steps@;
        match self.package_name {
            Some(name) => {
                steps.push(Step::SetEnv { key: PACKAGE_NAME_VAR.to_owned(), value: name });
            },
            None => {},
        }
        proof {
            let n = folders.len() as int;
            let m = files.len() as int;
            let layout = model.layout(root@);
            assert(step_views(steps@).len() == layout.len());
            assert forall|idx: int| 0 <= idx < layout.len() implies step_views(steps@)[idx]
                == layout[idx] by {
                if 1 <= idx < 1 + n {
                    assert(placed[1 + (idx - 1)]@ == model.folder_steps(root@)[idx - 1]);
                } else if 1 + n <= idx < 1 + n + m {
                    assert(placed[1 + n + (idx - 1 - n)]@ == model.file_steps(root@)[idx - 1 - n]);
                }
            }
            assert(step_views(steps@) =~= layout);
        }
        Fixture { project: Project { root: root.to_owned(), name: self.name }, steps }
    }
}

/// Whether `text` occurs among `strings`.
fn holds_text(strings: &Vec<String>, text: &String) -> (found: bool)
    ensures
        found == texts(strings@).contains(text@),
{
    let mut i: usize = 0;
    while i < strings.len()
        invariant
            i <= strings.len(),
            forall|j: int| 0 <= j < i ==> texts(strings@)[j] != text@,
        decreases strings.len() - i,
    {
        if strings[i] == *text {
            assert(texts(strings@)[i as int] == text@);
            return true;
        }
        i += 1;
    }
    false
}

/// Where among `files` the path `name` is registered, if it is.
fn position_of_path(files: &Vec<(String, String)>, name: &String) -> (at: Option<usize>)
    ensures
        match at {
            Some(i) => i < files.len() && text_pairs(files@)[i as int].0 == name@,
            None => forall|j: int| 0 <= j < files.len() ==> text_pairs(files@)[j].0 != name@,
        },
{
    let mut i: usize = 0;
    while i < files.len()
        invariant
            i <= files.len(),
            forall|j: int| 0 <= j < i ==> text_pairs(files@)[j].0 != name@,
        decreases files.len() - i,
    {
        if files[i].0 == *name {
            assert(text_pairs(files@)[i as int].0 == name@);
            return Some(i);
        }
        i += 1;
    }
    None
}

} // verus!
