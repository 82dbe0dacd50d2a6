//! The enrichment pipeline: from a raw description to a description, a
//! priority and a project.

use vstd::prelude::*;
use vstd::string::StringExecFns;
use crate::ai::{ask, may_say, single_turn, AiProvider, ChatRequest, ChatRequestView};
use crate::json::{json_text_field, read_text_field};
use crate::text::{same_text, strip_char, stripped_of, trim_text, trimmed_of};
use crate::todo::task::TaskPriority;

verus! {

/// The instructions for the first pass: enhance the description and rank it.
pub const ENHANCE_PROMPT: &'static str = "You are a task enhancement system that ONLY outputs JSON.\n\nRULES:\n1. Output MUST be a single JSON object\n2. JSON MUST have exactly two fields: \"description\" and \"priority\"\n3. \"priority\" MUST be one of: \"high\", \"medium\", \"low\" (lowercase)\n4. NO other text before or after the JSON\n5. The description MUST be significantly enhanced:\n   - Add specific technical details\n   - Explain the impact and scope\n   - Include any relevant components or systems\n   - Make it at least 2x longer than the input if this supports details\n   - Keep it concise but comprehensive\n\nSTRICT PRIORITY RULES:\n\"high\" MUST be used if the task contains ANY of:\n- security/vulnerability/exploit\n- critical/severe/major\n- crash/data loss\n- blocking/broken/emergency\n- authentication/authorization issues\n\n\"medium\" MUST be used if the task contains ANY of:\n- feature/enhancement\n- documentation/readme\n- improvement/update\n- non-critical fix\n\n\"low\" MUST be used if the task contains ANY of:\n- style/formatting\n- minor/cosmetic\n- optional/nice-to-have\n- cleanup/refactor\n\nIf multiple rules match, use the highest priority that matches.\n\nExample Input: \"fix login bug\"\nExample Output: {\"description\":\"Investigate and resolve authentication system malfunction affecting user login process, verify session management, and ensure proper error handling\",\"priority\":\"medium\"}\n\nExample Input: \"fix security vulnerability\"\nExample Output: {\"description\":\"Address critical security vulnerability in authentication system that could allow unauthorized access, implement proper input validation, and update encryption protocols\",\"priority\":\"high\"}";

/// What the user says in the first pass.
pub open spec fn enhance_content(description: Seq<char>) -> Seq<char> {
    "Task: '"@ + description
        + "'\nOutput a JSON object with enhanced description and priority following the STRICT rules exactly."@
}

/// The request of the first pass.
pub fn enhance_request(description: &str) -> (r: ChatRequest)
    ensures
        r@ == single_turn(ENHANCE_PROMPT@, enhance_content(description@)),
{
    let content = "Task: '".to_owned().concat(description).concat(
        "'\nOutput a JSON object with enhanced description and priority following the STRICT rules exactly.",
    );
    ChatRequest::from_user(ENHANCE_PROMPT.to_owned(), content)
}

/// The instructions for the second pass: coerce whatever the first pass said
/// into the two-field JSON shape.
pub const CLEAN_PROMPT: &'static str = "You are a JSON cleaning system. Your ONLY job is to output a valid JSON object.\n\nSTRICT RULES:\n1. Output MUST be ONLY the JSON object itself\n2. NO markdown formatting (no ```json or ``` markers)\n3. NO explanatory text before or after\n4. NO newlines before or after the JSON\n5. JSON MUST have exactly these fields:\n   - \"description\": string\n   - \"priority\": string (one of: \"high\", \"medium\", \"low\")\n\nIf input contains JSON-like content:\n- Extract and fix it\n- Ensure it has the required fields\n- Return ONLY the fixed JSON\n\nIf NO valid JSON found:\nReturn this exact format:\n{\"description\":\"INPUT_TEXT\",\"priority\":\"medium\"}\n\nExample input: \"Here's my response: {'desc': 'fix bug', 'priority': 'high'}\"\nExample output: {\"description\":\"fix bug\",\"priority\":\"high\"}";

/// What the user says in the second pass.
pub open spec fn clean_content(first_attempt: Seq<char>) -> Seq<char> {
    "Clean and format this into proper JSON:\n"@ + first_attempt
}

/// The request of the second pass.
pub fn clean_request(first_attempt: &str) -> (r: ChatRequest)
    ensures
        r@ == single_turn(CLEAN_PROMPT@, clean_content(first_attempt@)),
{
    let content = "Clean and format this into proper JSON:\n".to_owned().concat(first_attempt);
    ChatRequest::from_user(CLEAN_PROMPT.to_owned(), content)
}

/// The known projects, each with a description, and the project that a task
/// goes to when none of them fits.
#[derive(Debug, PartialEq)]
pub struct ProjectCatalog {
    pub projects: Vec<(String, String)>,
    pub default_project: String,
}

/// What a `ProjectCatalog` holds, as mathematical values.
pub struct ProjectCatalogView {
    pub projects: Seq<(Seq<char>, Seq<char>)>,
    pub default_project: Seq<char>,
}

impl DeepView for ProjectCatalog {
    type V = ProjectCatalogView;

    open spec fn deep_view(&self) -> ProjectCatalogView {
        ProjectCatalogView {
            projects: self.projects.deep_view(),
            default_project: self.default_project@,
        }
    }
}

impl View for ProjectCatalog {
    type V = ProjectCatalogView;

    open spec fn view(&self) -> ProjectCatalogView {
        self.deep_view()
    }
}

/// The catalog as text: one line `- name: description` for each project.
pub open spec fn catalog_text(projects: Seq<(Seq<char>, Seq<char>)>) -> Seq<char>
    decreases projects.len(),
{
    if projects.len() == 0 {
        Seq::empty()
    } else {
        catalog_text(projects.drop_last()) + "- "@ + projects.last().0 + ": "@
            + projects.last().1 + "\n"@
    }
}

pub const CLASSIFY_PROMPT_HEAD: &'static str = "You are a project classification system. Your task is to determine which project a given task belongs to.\n\nBelow is a list of available projects with descriptions:\n";

pub const CLASSIFY_PROMPT_RULES: &'static str = "\n\nRULES:\n1. Output MUST be ONLY the name of the project, nothing else\n2. Choose the MOST SPECIFIC project that relates to the task description\n3. If you cannot determine a specific project, use \"";

pub const CLASSIFY_PROMPT_TAIL: &'static str = "\" as the default\n4. Consider keywords, technical terms, and context in the task description\n5. Do NOT explain your reasoning or add any other text - ONLY output the project name\n\nExamples:\n\"Update the README for Swarmonomicon with new API docs\" -> \"Swarmonomicon\"\n\"Fix MQTT connection issue in the get-var utility\" -> \"mqtt-get-var\"\n\"Create a new Hammerspoon hotkey for window management\" -> \".hammerspoon\"\n\"Refactor regex handling in the RegressionTestKit\" -> \"regressiontestkit\"\n\"Add task priority system\" -> \"madness_interactive\"\n";

/// The instructions for classifying a task by project.
pub open spec fn classify_prompt(catalog: ProjectCatalogView) -> Seq<char> {
    CLASSIFY_PROMPT_HEAD@ + catalog_text(catalog.projects) + CLASSIFY_PROMPT_RULES@
        + catalog.default_project + CLASSIFY_PROMPT_TAIL@
}

/// What the user says when a task is classified.
pub open spec fn classify_content(description: Seq<char>) -> Seq<char> {
    "Task description: '"@ + description + "'\nWhich project does this "@
        + "task belong to?"@
}

impl ProjectCatalog {
    /// The catalog as text: one line `- name: description` for each project.
    pub fn descriptions_text(&self) -> (r: String)
        ensures
            r@ == catalog_text(self@.projects),
    {
        let mut out = String::new();
        let mut i: usize = 0;
        while i < self.projects.len()
            invariant
                i <= self.projects.len(),
                out@ == catalog_text(self@.projects.take(i as int)),
            decreases self.projects.len() - i,
        {
            proof {
                let next = self@.projects.take(i + 1);
                assert(next.drop_last() =~= self@.projects.take(i as int));
                assert(next.last() == self@.projects[i as int]);
            }
            out = out.concat("- ").concat(self.projects[i].0.as_str()).concat(": ").concat(
                self.projects[i].1.as_str(),
            ).concat("\n");
            i += 1;
        }
        assert(self@.projects.take(i as int) =~= self@.projects);
        out
    }

    /// The request that asks which project a task belongs to.
    pub fn classify_request(&self, description: &str) -> (r: ChatRequest)
        ensures
            r@ == single_turn(classify_prompt(self@), classify_content(description@)),
    {
        let listing = self.descriptions_text();
        let prompt = CLASSIFY_PROMPT_HEAD.to_owned().concat(listing.as_str()).concat(
            CLASSIFY_PROMPT_RULES,
        ).concat(self.default_project.as_str()).concat(CLASSIFY_PROMPT_TAIL);
        let content = "Task description: '".to_owned().concat(description).concat(
            "'\nWhich project does this ",
        ).concat("task belong to?");
        ChatRequest::from_user(prompt, content)
    }
}

/// The project that a reply names: the reply without the white space around
/// it, then without double quotes, then without single quotes at its ends.
pub open spec fn project_named(reply: Seq<char>) -> Seq<char> {
    stripped_of(stripped_of(trimmed_of(reply), '"'), '\'')
}

/// Reads the project name out of the service's reply.
pub fn project_from_reply(reply: &str) -> (r: String)
    ensures
        r@ == project_named(reply@),
{
    strip_char(strip_char(trim_text(reply), '"'), '\'').to_owned()
}

/// The names of the catalog's projects, in order.
pub open spec fn project_names(catalog: ProjectCatalogView) -> Seq<Seq<char>> {
    catalog.projects.map_values(|p: (Seq<char>, Seq<char>)| p.0)
}

impl ProjectCatalogView {
    /// Whether `name` is a project that a task can be filed under: the name
    /// of a project of the catalog, or the default project.
    pub open spec fn knows(self, name: Seq<char>) -> bool {
        name == self.default_project || project_names(self).contains(name)
    }

    /// Whether every project has a name: the default project and each
    /// project of the catalog.
    pub open spec fn is_named(self) -> bool {
        &&& self.default_project.len() > 0
        &&& forall|i: int| 0 <= i < self.projects.len() ==> (#[trigger] self.projects[i]).0.len() > 0
    }

    /// The project that a name settles on: the name itself where the
    /// catalog knows it, else the default project.
    pub open spec fn settled(self, name: Seq<char>) -> Seq<char> {
        if self.knows(name) {
            name
        } else {
            self.default_project
        }
    }
}

/// The project that a reply of the text service settles on: what the reply
/// names, where the catalog knows it, else the default project.
pub open spec fn project_of_reply(catalog: ProjectCatalogView, reply: Seq<char>) -> Seq<char> {
    catalog.settled(project_named(reply))
}

/// What a task is filed under is always a project that the catalog knows,
/// and it has a name where every project of the catalog has one.
pub proof fn lemma_settled_is_known(catalog: ProjectCatalogView, name: Seq<char>)
    ensures
        catalog.knows(catalog.settled(name)),
        catalog.is_named() ==> catalog.settled(name).len() > 0,
{
    let r = catalog.settled(name);
    if catalog.is_named() && r != catalog.default_project {
        let i = project_names(catalog).index_of(r);
        assert(project_names(catalog)[i] == catalog.projects[i].0);
    }
}

impl ProjectCatalog {
    /// Holds a name to the catalog: the name stands where it is the name of
    /// a project of the catalog or the default project; any other name
    /// gives way to the default project.
    pub fn settle_project(&self, name: String) -> (r: String)
        ensures
            r@ == self@.settled(name@),
            self@.knows(r@),
            self@.is_named() ==> r@.len() > 0,
    {
        proof {
            lemma_settled_is_known(self@, name@);
        }
        if same_text(name.as_str(), self.default_project.as_str()) {
            return name;
        }
        let mut i: usize = 0;
        while i < self.projects.len()
            invariant
                i <= self.projects.len(),
                forall|j: int| 0 <= j < i ==> project_names(self@)[j] != name@,
            decreases self.projects.len() - i,
        {
            if same_text(self.projects[i].0.as_str(), name.as_str()) {
                assert(project_names(self@)[i as int] == name@);
                return name;
            }
            i += 1;
        }
        self.default_project.clone()
    }
}

/// The priority that a word stands for: `high` and `low` for themselves,
/// anything else, or nothing, for `Medium`.
pub open spec fn priority_named(word: Option<Seq<char>>) -> TaskPriority {
    if word == Some("high"@) {
        TaskPriority::High
    } else if word == Some("low"@) {
        TaskPriority::Low
    } else {
        TaskPriority::Medium
    }
}

/// What the two fields of a reply amount to: the description that the reply
/// gives, or the raw one where it gives none, and the priority it names.
pub open spec fn reading_of_fields(
    description: Seq<char>,
    reply_description: Option<Seq<char>>,
    reply_priority: Option<Seq<char>>,
) -> (Seq<char>, TaskPriority) {
    (
        match reply_description {
            Some(d) => d,
            None => description,
        },
        priority_named(reply_priority),
    )
}

/// Turns the two fields of a reply into a description and a priority.
pub fn interpret_reply(
    description: &str,
    reply_description: Option<String>,
    reply_priority: Option<String>,
) -> (r: (String, TaskPriority))
    ensures
        (r.0@, r.1) == reading_of_fields(
            description@,
            reply_description.deep_view(),
            reply_priority.deep_view(),
        ),
{
    let text = match reply_description {
        Some(d) => d,
        None => description.to_owned(),
    };
    let priority = match reply_priority {
        Some(w) => {
            if same_text(w.as_str(), "high") {
                TaskPriority::High
            } else if same_text(w.as_str(), "low") {
                TaskPriority::Low
            } else {
                TaskPriority::Medium
            }
        },
        None => TaskPriority::Medium,
    };
    (text, priority)
}

/// What a cleaned reply amounts to: where it is not JSON at all, the
/// raw description with `Medium`; else what its fields `description`
/// and `priority` give.
pub open spec fn reading_of(description: Seq<char>, cleaned: Seq<char>) -> (
    Seq<char>,
    TaskPriority,
) {
    match json_text_field(cleaned, "description"@) {
        Some(d) => reading_of_fields(
            description,
            d,
            match json_text_field(cleaned, "priority"@) {
                Some(p) => p,
                None => None,
            },
        ),
        None => (description, TaskPriority::Medium),
    }
}

/// Reads a cleaned reply.
pub fn read_reply(description: &str, cleaned: &str) -> (r: (String, TaskPriority))
    ensures
        (r.0@, r.1) == reading_of(description@, cleaned@),
{
    match read_text_field(cleaned, "description") {
        Some(d) => {
            let p = match read_text_field(cleaned, "priority") {
                Some(p) => p,
                None => None,
            };
            interpret_reply(description, d, p)
        },
        None => (description.to_owned(), TaskPriority::Medium),
    }
}

/// The project that the third pass settles on, given what the service
/// said: the project that its reply names, held to the catalog, or the
/// default project where the service failed.
pub open spec fn predicted_project(
    catalog: ProjectCatalogView,
    classified: Result<Seq<char>, Seq<char>>,
) -> Seq<char> {
    match classified {
        Ok(p) => project_of_reply(catalog, p),
        Err(_) => catalog.default_project,
    }
}

impl ProjectCatalog {
    /// Settles the project of a task from what the service said in the
    /// third pass. Whatever it said, the result is a project that the
    /// catalog knows; it is never missing.
    pub fn predict_project(&self, classified: Result<String, String>) -> (r: String)
        ensures
            r@ == predicted_project(self@, reply_view(classified)),
            self@.knows(r@),
            self@.is_named() ==> r@.len() > 0,
    {
        match classified {
            Ok(p) => self.settle_project(project_from_reply(p.as_str())),
            Err(_) => self.default_project.clone(),
        }
    }
}

/// What enrichment gives: the description to work from, how urgent the task
/// is, and the project it belongs to.
#[derive(Debug, PartialEq)]
pub struct Enrichment {
    pub description: String,
    pub priority: TaskPriority,
    pub project: String,
}

/// What an `Enrichment` holds, as mathematical values.
pub struct EnrichmentView {
    pub description: Seq<char>,
    pub priority: TaskPriority,
    pub project: Seq<char>,
}

impl DeepView for Enrichment {
    type V = EnrichmentView;

    open spec fn deep_view(&self) -> EnrichmentView {
        EnrichmentView {
            description: self.description@,
            priority: self.priority,
            project: self.project@,
        }
    }
}

impl View for Enrichment {
    type V = EnrichmentView;

    open spec fn view(&self) -> EnrichmentView {
        self.deep_view()
    }
}

/// What enrichment falls back to: the raw text, `Medium`, and the
/// default project.
pub open spec fn fallback(description: Seq<char>, default_project: Seq<char>) -> EnrichmentView {
    EnrichmentView { description, priority: TaskPriority::Medium, project: default_project }
}

/// A reply of the text service, as mathematical value.
pub open spec fn reply_view(reply: Result<String, String>) -> Result<Seq<char>, Seq<char>> {
    match reply {
        Ok(t) => Ok(t@),
        Err(e) => Err(e@),
    }
}

/// What the pipeline gives for a description, given what the service said
/// in each of the three passes.
///
/// A failed first or second pass gives the fallback, whatever the others
/// said. Else description and priority are read from the second reply. The
/// project is the one that the third reply names, where the catalog knows
/// it; where it does not, or the third pass failed, it is the default.
pub open spec fn outcome(
    description: Seq<char>,
    catalog: ProjectCatalogView,
    enhanced: Result<Seq<char>, Seq<char>>,
    cleaned: Result<Seq<char>, Seq<char>>,
    classified: Result<Seq<char>, Seq<char>>,
) -> EnrichmentView {
    match (enhanced, cleaned) {
        (Ok(_), Ok(c)) => EnrichmentView {
            description: reading_of(description, c).0,
            priority: reading_of(description, c).1,
            project: predicted_project(catalog, classified),
        },
        _ => fallback(description, catalog.default_project),
    }
}

/// Whatever the service said, the project that the pipeline gives is one
/// that the catalog knows, and it has a name where every project of the
/// catalog has one.
pub proof fn lemma_outcome_is_known(
    description: Seq<char>,
    catalog: ProjectCatalogView,
    enhanced: Result<Seq<char>, Seq<char>>,
    cleaned: Result<Seq<char>, Seq<char>>,
    classified: Result<Seq<char>, Seq<char>>,
)
    ensures
        catalog.knows(outcome(description, catalog, enhanced, cleaned, classified).project),
        catalog.is_named() ==> outcome(
            description,
            catalog,
            enhanced,
            cleaned,
            classified,
        ).project.len() > 0,
{
    match classified {
        Ok(p) => {
            lemma_settled_is_known(catalog, project_named(p));
        },
        Err(_) => {},
    }
}

/// Where the pipeline stands: which reply it waits for.
#[derive(Debug, PartialEq)]
pub enum EnrichState {
    /// Waiting for the enhanced description.
    Enhancing,
    /// Waiting for the cleaned JSON.
    Cleaning,
    /// Waiting for the project; the cleaned JSON is kept.
    Classifying { cleaned: String },
}

/// What the pipeline does next.
#[derive(Debug, PartialEq)]
pub enum EnrichStep {
    /// Ask the service, and come back with its reply in the state `then`.
    Ask { request: ChatRequest, then: EnrichState },
    /// The pipeline is through.
    Done(Enrichment),
}

/// Where the pipeline stands, as mathematical value.
pub enum EnrichStateView {
    Enhancing,
    Cleaning,
    Classifying { cleaned: Seq<char> },
}

/// What the pipeline does next, as mathematical value.
pub enum EnrichStepView {
    Ask { request: ChatRequestView, then: EnrichStateView },
    Done(EnrichmentView),
}

impl DeepView for EnrichState {
    type V = EnrichStateView;

    open spec fn deep_view(&self) -> EnrichStateView {
        match *self {
            EnrichState::Enhancing => EnrichStateView::Enhancing,
            EnrichState::Cleaning => EnrichStateView::Cleaning,
            EnrichState::Classifying { cleaned } => EnrichStateView::Classifying {
                cleaned: cleaned@,
            },
        }
    }
}

impl View for EnrichState {
    type V = EnrichStateView;

    open spec fn view(&self) -> EnrichStateView {
        self.deep_view()
    }
}

impl DeepView for EnrichStep {
    type V = EnrichStepView;

    open spec fn deep_view(&self) -> EnrichStepView {
        match *self {
            EnrichStep::Ask { request, then } => EnrichStepView::Ask {
                request: request@,
                then: then@,
            },
            EnrichStep::Done(e) => EnrichStepView::Done(e@),
        }
    }
}

impl View for EnrichStep {
    type V = EnrichStepView;

    open spec fn view(&self) -> EnrichStepView {
        self.deep_view()
    }
}

/// One step of the pipeline: what follows the service's reply in a state.
///
/// A failed first or second pass ends the pipeline with the fallback. A
/// reply to the first pass is handed to the second; a reply to the second is
/// kept while the project is asked for; the third reply, or its failure,
/// ends the pipeline.
pub open spec fn next_step(
    state: EnrichStateView,
    description: Seq<char>,
    catalog: ProjectCatalogView,
    reply: Result<Seq<char>, Seq<char>>,
) -> EnrichStepView {
    match state {
        EnrichStateView::Enhancing => match reply {
            Ok(first) => EnrichStepView::Ask {
                request: single_turn(CLEAN_PROMPT@, clean_content(first)),
                then: EnrichStateView::Cleaning,
            },
            Err(_) => EnrichStepView::Done(fallback(description, catalog.default_project)),
        },
        EnrichStateView::Cleaning => match reply {
            Ok(cleaned) => EnrichStepView::Ask {
                request: single_turn(classify_prompt(catalog), classify_content(description)),
                then: EnrichStateView::Classifying { cleaned },
            },
            Err(_) => EnrichStepView::Done(fallback(description, catalog.default_project)),
        },
        EnrichStateView::Classifying { cleaned } => EnrichStepView::Done(
            outcome(description, catalog, Ok(Seq::empty()), Ok(cleaned), reply),
        ),
    }
}

/// Takes the pipeline one step on: given the state it waited in and what the
/// service replied, says what to ask next, or what the result is.
pub fn advance(
    state: EnrichState,
    description: &str,
    catalog: &ProjectCatalog,
    reply: Result<String, String>,
) -> (r: EnrichStep)
    ensures
        r@ == next_step(state@, description@, catalog@, reply_view(reply)),
{
    match state {
        EnrichState::Enhancing => match reply {
            Ok(first) => EnrichStep::Ask {
                request: clean_request(first.as_str()),
                then: EnrichState::Cleaning,
            },
            Err(_) => EnrichStep::Done(fall_back(description, catalog)),
        },
        EnrichState::Cleaning => match reply {
            Ok(cleaned) => EnrichStep::Ask {
                request: catalog.classify_request(description),
                then: EnrichState::Classifying { cleaned },
            },
            Err(_) => EnrichStep::Done(fall_back(description, catalog)),
        },
        EnrichState::Classifying { cleaned } => {
            let (text, priority) = read_reply(description, cleaned.as_str());
            let project = catalog.predict_project(reply);
            EnrichStep::Done(Enrichment { description: text, priority, project })
        },
    }
}

/// Settles the pipeline from the three replies at once, for a caller that
/// asked for the project while the other two passes were under way. Where
/// the first pass failed, `cleaned` is not looked at.
pub fn settle(
    description: &str,
    catalog: &ProjectCatalog,
    enhanced: Result<String, String>,
    cleaned: Result<String, String>,
    classified: Result<String, String>,
) -> (r: Enrichment)
    ensures
        r@ == outcome(
            description@,
            catalog@,
            reply_view(enhanced),
            reply_view(cleaned),
            reply_view(classified),
        ),
        catalog@.knows(r@.project),
        catalog@.is_named() ==> r@.project.len() > 0,
{
    proof {
        lemma_outcome_is_known(
            description@,
            catalog@,
            reply_view(enhanced),
            reply_view(cleaned),
            reply_view(classified),
        );
    }
    match (enhanced, cleaned) {
        (Ok(_), Ok(c)) => {
            let (text, priority) = read_reply(description, c.as_str());
            let project = catalog.predict_project(classified);
            Enrichment { description: text, priority, project }
        },
        _ => fall_back(description, catalog),
    }
}

/// The fallback for a description: the text as it is, `Medium`, and the
/// catalog's default project.
pub fn fall_back(description: &str, catalog: &ProjectCatalog) -> (r: Enrichment)
    ensures
        r@ == fallback(description@, catalog@.default_project),
{
    Enrichment {
        description: description.to_owned(),
        priority: TaskPriority::Medium,
        project: catalog.default_project.clone(),
    }
}

/// The project that a task is filed under: the one that the caller gave,
/// where there is one, else the predicted one.
pub open spec fn merged_project(supplied: Option<Seq<char>>, predicted: Seq<char>) -> Seq<char> {
    match supplied {
        Some(p) => p,
        None => predicted,
    }
}

/// Settles the project: a caller-supplied project always wins.
pub fn merge_project(supplied: Option<&str>, predicted: String) -> (r: String)
    ensures
        r@ == merged_project(supplied.deep_view(), predicted@),
{
    match supplied {
        Some(p) => p.to_owned(),
        None => predicted,
    }
}

/// Whether `r` is what the pipeline gives against the service `ai`, where
/// the service said `enhanced`, `cleaned` and `classified`: the result is
/// the `outcome` of the three replies, and each reply that was asked for is
/// what the service said to the request of its pass. The second pass is
/// asked with the first reply, and only where that came; the third only
/// where the second came.
pub open spec fn enriched_by<C: AiProvider>(
    ai: C,
    description: Seq<char>,
    catalog: ProjectCatalogView,
    enhanced: Result<String, String>,
    cleaned: Result<String, String>,
    classified: Result<String, String>,
    r: EnrichmentView,
) -> bool {
    &&& r == outcome(
        description,
        catalog,
        reply_view(enhanced),
        reply_view(cleaned),
        reply_view(classified),
    )
    &&& may_say(ai, single_turn(ENHANCE_PROMPT@, enhance_content(description)), enhanced)
    &&& enhanced matches Ok(first) ==> may_say(
        ai,
        single_turn(CLEAN_PROMPT@, clean_content(first@)),
        cleaned,
    )
    &&& enhanced is Ok && cleaned is Ok ==> may_say(
        ai,
        single_turn(classify_prompt(catalog), classify_content(description)),
        classified,
    )
}

/// Whether `r` is what the pipeline gives against the service `ai`, for
/// some three replies of the service.
pub open spec fn enriched<C: AiProvider>(
    ai: C,
    description: Seq<char>,
    catalog: ProjectCatalogView,
    r: EnrichmentView,
) -> bool {
    exists|
        enhanced: Result<String, String>,
        cleaned: Result<String, String>,
        classified: Result<String, String>,
    | #[trigger]
        enriched_by(ai, description, catalog, enhanced, cleaned, classified, r)
}

/// Runs the whole pipeline against a text service.
///
/// The service is asked up to three times: to enhance the description, to
/// clean the answer into JSON, and to name the project. The result is what
/// `outcome` gives for what the service said; it never fails. With the
/// service out of reach the result is the fallback.
pub fn enrich<C: AiProvider>(ai: &C, description: &str, catalog: &ProjectCatalog) -> (r:
    Enrichment)
    ensures
        enriched(*ai, description@, catalog@, r@),
        ai.is_unreachable() ==> r@ == fallback(description@, catalog@.default_project),
        catalog@.knows(r@.project),
        catalog@.is_named() ==> r@.project.len() > 0,
{
    proof {
        assert forall|
            a: Result<Seq<char>, Seq<char>>,
            b: Result<Seq<char>, Seq<char>>,
            c: Result<Seq<char>, Seq<char>>,
        |
            catalog@.knows(#[trigger] outcome(description@, catalog@, a, b, c).project) && (
            catalog@.is_named() ==> outcome(description@, catalog@, a, b, c).project.len() > 0) by {
            lemma_outcome_is_known(description@, catalog@, a, b, c);
        }
    }
    let ghost none: Result<String, String> = arbitrary();
    let enhanced = ask(ai, enhance_request(description));
    let ghost e = enhanced;
    match advance(EnrichState::Enhancing, description, catalog, enhanced) {
        EnrichStep::Done(result) => {
            assert(enriched_by(*ai, description@, catalog@, e, none, none, result@));
            result
        },
        EnrichStep::Ask { request, then } => {
            let cleaned = ask(ai, request);
            let ghost c = cleaned;
            match advance(then, description, catalog, cleaned) {
                EnrichStep::Done(result) => {
                    assert(enriched_by(*ai, description@, catalog@, e, c, none, result@));
                    result
                },
                EnrichStep::Ask { request, then } => {
                    let classified = ask(ai, request);
                    let ghost p = classified;
                    match advance(then, description, catalog, classified) {
                        EnrichStep::Done(result) => {
                            assert(enriched_by(*ai, description@, catalog@, e, c, p, result@));
                            result
                        },
                        EnrichStep::Ask { .. } => {
                            assert(false);
                            fall_back(description, catalog)
                        },
                    }
                },
            }
        },
    }
}

/// With the text service out of reach from the start, the pipeline gives the
/// raw description, `Medium`, and the default project, whatever the
/// description is and whatever the later passes would have said.
pub proof fn lemma_outage_gives_fallback(
    description: Seq<char>,
    catalog: ProjectCatalogView,
    error: Seq<char>,
    cleaned: Result<Seq<char>, Seq<char>>,
    classified: Result<Seq<char>, Seq<char>>,
)
    ensures
        outcome(description, catalog, Err(error), cleaned, classified) == fallback(
            description,
            catalog.default_project,
        ),
        next_step(EnrichStateView::Enhancing, description, catalog, Err(error))
            == EnrichStepView::Done(fallback(description, catalog.default_project)),
{
}

} // verus!
