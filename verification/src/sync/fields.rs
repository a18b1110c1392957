//! The Status and Iteration fields of a project: which options and which
//! iteration the configured names stand for.

use crate::config::ProjectConfig;
use crate::github::projects::{
    find_field, find_iteration, find_option, first_field, first_named, FieldOption, IterationInfo,
    NamedView, ProjectFieldInfo, ProjectFieldInfoView, ProjectFieldType, ProjectFieldTypeView,
};
use crate::name_map::{lemma_upsert_text, text_pairs, upsert, NameMap};
use crate::seqs::{first_where, lemma_first_where};
use crate::text::{
    extend_str, lowercase, option_view, quote_list, quoted_list, string_of, to_lowercase, views,
};
use vstd::prelude::*;

verus! {

/// The status field of a project and the option for each ticket status.
pub struct StatusFieldCache {
    pub field_id: String,
    /// From ticket status, in lower case, to the id of the option.
    pub status_to_option: NameMap<String>,
}

/// The model of a [`StatusFieldCache`].
pub struct StatusFieldCacheView {
    pub field_id: Seq<char>,
    pub status_to_option: Seq<(Seq<char>, Seq<char>)>,
}

impl View for StatusFieldCache {
    type V = StatusFieldCacheView;

    open spec fn view(&self) -> StatusFieldCacheView {
        StatusFieldCacheView {
            field_id: self.field_id@,
            status_to_option: text_pairs(self.status_to_option.pairs()),
        }
    }
}

/// The iteration field of a project and the iteration that new items go in.
#[derive(Debug)]
pub struct IterationFieldCache {
    pub field_id: String,
    pub iteration_id: String,
}

/// The model of an [`IterationFieldCache`].
pub struct IterationFieldCacheView {
    pub field_id: Seq<char>,
    pub iteration_id: Seq<char>,
}

impl View for IterationFieldCache {
    type V = IterationFieldCacheView;

    open spec fn view(&self) -> IterationFieldCacheView {
        IterationFieldCacheView { field_id: self.field_id@, iteration_id: self.iteration_id@ }
    }
}

/// What is known of the fields of the project.
pub struct ProjectFieldsCache {
    pub status: Option<StatusFieldCache>,
    pub iteration: Option<IterationFieldCache>,
}

/// The model of a [`ProjectFieldsCache`].
pub struct ProjectFieldsCacheView {
    pub status: Option<StatusFieldCacheView>,
    pub iteration: Option<IterationFieldCacheView>,
}

impl View for ProjectFieldsCache {
    type V = ProjectFieldsCacheView;

    open spec fn view(&self) -> ProjectFieldsCacheView {
        ProjectFieldsCacheView {
            status: option_view(self.status),
            iteration: option_view(self.iteration),
        }
    }
}

/// What setting up the status field came to.
pub enum StatusSetup {
    /// The field is there and every configured option was found.
    Ready(StatusFieldCache),
    /// The status is not synced; the warning says why.
    Skipped { warning: String },
    /// The configuration names an option that the field lacks.
    Invalid { error: String },
}

/// The model of a [`StatusSetup`].
pub enum StatusSetupView {
    Ready(StatusFieldCacheView),
    Skipped { warning: Seq<char> },
    Invalid { error: Seq<char> },
}

impl View for StatusSetup {
    type V = StatusSetupView;

    open spec fn view(&self) -> StatusSetupView {
        match self {
            StatusSetup::Ready(cache) => StatusSetupView::Ready(cache@),
            StatusSetup::Skipped { warning } => StatusSetupView::Skipped { warning: warning@ },
            StatusSetup::Invalid { error } => StatusSetupView::Invalid { error: error@ },
        }
    }
}

/// What setting up the iteration field came to.
#[derive(Debug)]
pub enum IterationSetup {
    /// No iteration is configured.
    NotConfigured,
    /// The field is there and the iteration was found.
    Ready(IterationFieldCache),
    /// The iteration is not synced; the warning says why.
    Skipped { warning: String },
    /// The configuration names an iteration that is not active.
    Invalid { error: String },
}

/// The model of an [`IterationSetup`].
pub enum IterationSetupView {
    NotConfigured,
    Ready(IterationFieldCacheView),
    Skipped { warning: Seq<char> },
    Invalid { error: Seq<char> },
}

impl View for IterationSetup {
    type V = IterationSetupView;

    open spec fn view(&self) -> IterationSetupView {
        match self {
            IterationSetup::NotConfigured => IterationSetupView::NotConfigured,
            IterationSetup::Ready(cache) => IterationSetupView::Ready(cache@),
            IterationSetup::Skipped { warning } => IterationSetupView::Skipped { warning: warning@ },
            IterationSetup::Invalid { error } => IterationSetupView::Invalid { error: error@ },
        }
    }
}

/// The names of the items, in order.
pub open spec fn names_of(items: Seq<NamedView>) -> Seq<Seq<char>> {
    Seq::new(items.len(), |i: int| items[i].name)
}

/// The warning for a field that the project lacks.
pub open spec fn field_missing(name: Seq<char>, what: Seq<char>) -> Seq<char> {
    "Project field '"@ + name + "' not found, skipping "@ + what + " sync"@
}

/// The warning for a status field that is no single-select field.
pub open spec fn not_single_select(name: Seq<char>) -> Seq<char> {
    "Project field '"@ + name + "' is not a single-select field, skipping status sync"@
}

/// The warning for an iteration field that is no iteration field.
pub open spec fn not_iteration(name: Seq<char>) -> Seq<char> {
    "Project field '"@ + name + "' is not an iteration field, skipping iteration sync"@
}

/// The error for a status that is mapped to an option which the field
/// lacks.
pub open spec fn option_missing(
    option_name: Seq<char>,
    ticket_status: Seq<char>,
    available: Seq<Seq<char>>,
) -> Seq<char> {
    "Project status option '"@ + option_name + "' (for ticket status '"@ + ticket_status
        + "') not found.\nAvailable options: "@ + quoted_list(available)
}

/// The error for an iteration that is not among the active ones.
pub open spec fn iteration_missing(title: Seq<char>, available: Seq<Seq<char>>) -> Seq<char> {
    "Iteration '"@ + title + "' not found.\nAvailable active iterations: "@ + quoted_list(
        available,
    )
}

/// The index of the first pair of the status mapping that names an option
/// which the field lacks, or the number of pairs.
pub open spec fn first_missing_option(
    mapping: Seq<(Seq<char>, Seq<char>)>,
    options: Seq<NamedView>,
) -> int {
    first_where(
        mapping,
        |pair: (Seq<char>, Seq<char>)| first_named(options, pair.1) >= options.len(),
    )
}

/// The options for the first `k` pairs of the status mapping: from the
/// ticket status in lower case to the id of the first option with the
/// mapped name, case ignored.
pub open spec fn status_options(
    mapping: Seq<(Seq<char>, Seq<char>)>,
    options: Seq<NamedView>,
    k: nat,
) -> Seq<(Seq<char>, Seq<char>)>
    decreases k,
{
    if k == 0 || k > mapping.len() {
        Seq::empty()
    } else {
        let i = (k - 1) as int;
        upsert(
            status_options(mapping, options, (k - 1) as nat),
            lowercase(mapping[i].0),
            options[first_named(options, mapping[i].1)].id,
        )
    }
}

/// The names of the options, in order.
fn option_names(options: &[FieldOption]) -> (out: Vec<String>)
    ensures
        views(out@) == names_of(views(options@)),
{
    let mut out: Vec<String> = Vec::new();
    let mut i: usize = 0;
    while i < options.len()
        invariant
            i <= options.len(),
            out@.len() == i,
            forall|j: int| 0 <= j < i ==> (#[trigger] out@[j])@ == options@[j].name@,
        decreases options.len() - i,
    {
        out.push(options[i].name.clone());
        i += 1;
    }
    assert(views(out@) =~= names_of(views(options@)));
    out
}

/// The titles of the iterations, in order.
fn iteration_titles(iterations: &[IterationInfo]) -> (out: Vec<String>)
    ensures
        views(out@) == names_of(views(iterations@)),
{
    let mut out: Vec<String> = Vec::new();
    let mut i: usize = 0;
    while i < iterations.len()
        invariant
            i <= iterations.len(),
            out@.len() == i,
            forall|j: int| 0 <= j < i ==> (#[trigger] out@[j])@ == iterations@[j].title@,
        decreases iterations.len() - i,
    {
        out.push(iterations[i].title.clone());
        i += 1;
    }
    assert(views(out@) =~= names_of(views(iterations@)));
    out
}

/// Whether the fields of the project are needed at all: they are where a
/// status is mapped or an iteration is configured.
pub fn needs_project_fields(config: &ProjectConfig) -> (needed: bool)
    ensures
        needed == (config.status.pairs().len() > 0 || config.iteration is Some),
{
    !config.status.is_empty() || config.iteration.is_some()
}

/// What setting up the status field comes to.
///
/// Without a field of the configured name, case ignored, or with one that
/// is no single-select field, the status is skipped with a warning. With
/// one, every pair of the mapping is looked up among its options by name,
/// case ignored. The first pair without an option makes the setup invalid;
/// with all found the setup is ready with [`status_options`].
pub open spec fn status_setup(
    fields: Seq<ProjectFieldInfoView>,
    field_name: Seq<char>,
    mapping: Seq<(Seq<char>, Seq<char>)>,
) -> StatusSetupView {
    let at = first_field(fields, field_name);
    if at < 0 || at >= fields.len() {
        StatusSetupView::Skipped { warning: field_missing(field_name, "status"@) }
    } else {
        match fields[at].field_type {
            ProjectFieldTypeView::SingleSelect { options } => {
                let k = first_missing_option(mapping, options);
                if 0 <= k < mapping.len() {
                    StatusSetupView::Invalid {
                        error: option_missing(mapping[k].1, mapping[k].0, names_of(options)),
                    }
                } else {
                    StatusSetupView::Ready(
                        StatusFieldCacheView {
                            field_id: fields[at].id,
                            status_to_option: status_options(mapping, options, mapping.len()),
                        },
                    )
                }
            },
            _ => StatusSetupView::Skipped { warning: not_single_select(field_name) },
        }
    }
}

/// The option for every pair of the status mapping, or the error for the
/// first pair without one: see [`status_setup`].
pub fn map_status_options(options: &[FieldOption], status: &NameMap<String>) -> (mapped: Result<
    NameMap<String>,
    String,
>)
    ensures
        ({
            let mapping = text_pairs(status.pairs());
            let models = views(options@);
            let k = first_missing_option(mapping, models);
            match mapped {
                Ok(found) => k == mapping.len() && text_pairs(found.pairs()) == status_options(
                    mapping,
                    models,
                    mapping.len(),
                ),
                Err(error) => 0 <= k < mapping.len() && error@ == option_missing(
                    mapping[k].1,
                    mapping[k].0,
                    names_of(models),
                ),
            }
        }),
{
    let ghost mapping = text_pairs(status.pairs());
    let ghost models = views(options@);
    let mut status_to_option: NameMap<String> = NameMap::new();
    let n = status.len();
    let mut i: usize = 0;
    assert(text_pairs(status_to_option.pairs()) =~= status_options(mapping, models, 0));
    while i < n
        invariant
            i <= n,
            n == status.pairs().len(),
            mapping == text_pairs(status.pairs()),
            models == views(options@),
            forall|j: int| 0 <= j < i ==> first_named(models, mapping[j].1) < models.len(),
            text_pairs(status_to_option.pairs()) == status_options(mapping, models, i as nat),
        decreases n - i,
    {
        let ticket_status = status.key_at(i);
        let option_name = status.value_at(i);
        assert(mapping[i as int] == (ticket_status@, option_name@));
        let found = find_option(options, option_name.as_str());
        if found >= options.len() {
            let available = option_names(options);
            let listed = quote_list(available.as_slice());
            let mut buf: Vec<char> = Vec::new();
            extend_str(&mut buf, "Project status option '");
            extend_str(&mut buf, option_name.as_str());
            extend_str(&mut buf, "' (for ticket status '");
            extend_str(&mut buf, ticket_status.as_str());
            extend_str(&mut buf, "') not found.\nAvailable options: ");
            extend_str(&mut buf, listed.as_str());
            proof {
                lemma_first_where(
                    mapping,
                    |pair: (Seq<char>, Seq<char>)| first_named(models, pair.1) >= models.len(),
                    i as int,
                );
            }
            return Err(string_of(buf.as_slice()));
        }
        let key = to_lowercase(ticket_status.as_str());
        let value = options[found].id.clone();
        proof {
            assert(models[found as int] == options@[found as int]@);
            lemma_upsert_text(status_to_option.pairs(), key@, value);
        }
        status_to_option.insert(key, value);
        i += 1;
    }
    proof {
        lemma_first_where(
            mapping,
            |pair: (Seq<char>, Seq<char>)| first_named(models, pair.1) >= models.len(),
            n as int,
        );
    }
    Ok(status_to_option)
}

/// Sets up the status field: see [`status_setup`].
pub fn setup_status_field(fields: &[ProjectFieldInfo], config: &ProjectConfig) -> (setup:
    StatusSetup)
    ensures
        setup@ == status_setup(
            views(fields@),
            config.status_field@,
            text_pairs(config.status.pairs()),
        ),
{
    let at = find_field(fields, config.status_field.as_str());
    if at >= fields.len() {
        let mut buf: Vec<char> = Vec::new();
        extend_str(&mut buf, "Project field '");
        extend_str(&mut buf, config.status_field.as_str());
        extend_str(&mut buf, "' not found, skipping ");
        extend_str(&mut buf, "status");
        extend_str(&mut buf, " sync");
        return StatusSetup::Skipped { warning: string_of(buf.as_slice()) };
    }
    let field = &fields[at];
    assert(views(fields@)[at as int] == fields@[at as int]@);
    let options = match &field.field_type {
        ProjectFieldType::SingleSelect { options } => options,
        _ => {
            let mut buf: Vec<char> = Vec::new();
            extend_str(&mut buf, "Project field '");
            extend_str(&mut buf, config.status_field.as_str());
            extend_str(&mut buf, "' is not a single-select field, skipping status sync");
            return StatusSetup::Skipped { warning: string_of(buf.as_slice()) };
        },
    };
    match map_status_options(options.as_slice(), &config.status) {
        Ok(status_to_option) => StatusSetup::Ready(
            StatusFieldCache { field_id: field.id.clone(), status_to_option },
        ),
        Err(error) => StatusSetup::Invalid { error },
    }
}

/// What setting up the iteration field comes to.
///
/// Without a configured iteration there is nothing to set up. Without a
/// field of the configured name, case ignored, or with one that is no
/// iteration field, the iteration is skipped with a warning. `@current`
/// stands for the first active iteration, and is skipped with a warning
/// where none is active. Any other setting is the title, case ignored, of
/// an active iteration, and invalid where there is none of that title.
pub open spec fn iteration_setup(
    fields: Seq<ProjectFieldInfoView>,
    field_name: Seq<char>,
    setting: Option<Seq<char>>,
) -> IterationSetupView {
    match setting {
        None => IterationSetupView::NotConfigured,
        Some(wanted) => {
            let at = first_field(fields, field_name);
            if at < 0 || at >= fields.len() {
                IterationSetupView::Skipped { warning: field_missing(field_name, "iteration"@) }
            } else {
                match fields[at].field_type {
                    ProjectFieldTypeView::Iteration { active, completed } => if wanted
                        == "@current"@ {
                        if active.len() > 0 {
                            IterationSetupView::Ready(
                                IterationFieldCacheView {
                                    field_id: fields[at].id,
                                    iteration_id: active[0].id,
                                },
                            )
                        } else {
                            IterationSetupView::Skipped {
                                warning: "No active iteration found, skipping iteration sync"@,
                            }
                        }
                    } else {
                        let found = first_named(active, wanted);
                        if 0 <= found < active.len() {
                            IterationSetupView::Ready(
                                IterationFieldCacheView {
                                    field_id: fields[at].id,
                                    iteration_id: active[found].id,
                                },
                            )
                        } else {
                            IterationSetupView::Invalid {
                                error: iteration_missing(wanted, names_of(active)),
                            }
                        }
                    },
                    _ => IterationSetupView::Skipped { warning: not_iteration(field_name) },
                }
            }
        },
    }
}

/// Sets up the iteration field: see [`iteration_setup`].
pub fn setup_iteration_field(fields: &[ProjectFieldInfo], config: &ProjectConfig) -> (setup:
    IterationSetup)
    ensures
        setup@ == iteration_setup(
            views(fields@),
            config.iteration_field@,
            option_view(config.iteration),
        ),
{
    let setting = match &config.iteration {
        Some(setting) => setting,
        None => {
            return IterationSetup::NotConfigured;
        },
    };
    let at = find_field(fields, config.iteration_field.as_str());
    if at >= fields.len() {
        let mut buf: Vec<char> = Vec::new();
        extend_str(&mut buf, "Project field '");
        extend_str(&mut buf, config.iteration_field.as_str());
        extend_str(&mut buf, "' not found, skipping ");
        extend_str(&mut buf, "iteration");
        extend_str(&mut buf, " sync");
        return IterationSetup::Skipped { warning: string_of(buf.as_slice()) };
    }
    let field = &fields[at];
    assert(views(fields@)[at as int] == fields@[at as int]@);
    let active = match &field.field_type {
        ProjectFieldType::Iteration { active, completed } => active,
        _ => {
            let mut buf: Vec<char> = Vec::new();
            extend_str(&mut buf, "Project field '");
            extend_str(&mut buf, config.iteration_field.as_str());
            extend_str(&mut buf, "' is not an iteration field, skipping iteration sync");
            return IterationSetup::Skipped { warning: string_of(buf.as_slice()) };
        },
    };
    let current = String::from_str("@current");
    if *setting == current {
        if active.len() > 0 {
            assert(views(active@)[0] == active@[0]@);
            IterationSetup::Ready(
                IterationFieldCache {
                    field_id: field.id.clone(),
                    iteration_id: active[0].id.clone(),
                },
            )
        } else {
            IterationSetup::Skipped {
                warning: String::from_str("No active iteration found, skipping iteration sync"),
            }
        }
    } else {
        let found = find_iteration(active.as_slice(), setting.as_str());
        if found < active.len() {
            assert(views(active@)[found as int] == active@[found as int]@);
            IterationSetup::Ready(
                IterationFieldCache {
                    field_id: field.id.clone(),
                    iteration_id: active[found].id.clone(),
                },
            )
        } else {
            let available = iteration_titles(active.as_slice());
            let listed = quote_list(available.as_slice());
            let mut buf: Vec<char> = Vec::new();
            extend_str(&mut buf, "Iteration '");
            extend_str(&mut buf, setting.as_str());
            extend_str(&mut buf, "' not found.\nAvailable active iterations: ");
            extend_str(&mut buf, listed.as_str());
            IterationSetup::Invalid { error: string_of(buf.as_slice()) }
        }
    }
}

} // verus!
