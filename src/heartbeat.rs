//! Turning focus events into heartbeats: application filtering, category
//! rules and the entity string.

use vstd::prelude::*;

use crate::backend::FocusEvent;
use crate::config::{CategoryRule, Config, TitleStrategy};
use crate::domain::{Category, Entity, Heartbeat};
use crate::pattern::{case_insensitive_compiles, case_insensitive_matches, CasePattern};
use crate::text::{eq_ascii_case, eq_ignore_ascii_case};

verus! {

broadcast use vstd::string::group_string_axioms;

/// The texts of a list of strings.
pub open spec fn texts(v: Seq<String>) -> Seq<Seq<char>> {
    v.map_values(|s: String| s@)
}

/// The texts of an optional list of strings.
pub open spec fn opt_texts(o: Option<Vec<String>>) -> Option<Seq<Seq<char>>> {
    match o {
        Some(v) => Some(texts(v@)),
        None => None,
    }
}

/// A category rule as pattern text and category.
pub open spec fn rule_texts(rules: Seq<CategoryRule>) -> Seq<(Seq<char>, Category)> {
    rules.map_values(|r: CategoryRule| (r.pattern@, r.category))
}

/// The rules whose pattern compiles, in their order.
pub open spec fn usable_rules(rules: Seq<(Seq<char>, Category)>) -> Seq<(Seq<char>, Category)>
    decreases rules.len(),
{
    if rules.len() == 0 {
        Seq::empty()
    } else if case_insensitive_compiles(rules.last().0) {
        usable_rules(rules.drop_last()).push(rules.last())
    } else {
        usable_rules(rules.drop_last())
    }
}

/// The patterns that do not compile, in their order.
pub open spec fn rejected_patterns(rules: Seq<(Seq<char>, Category)>) -> Seq<Seq<char>>
    decreases rules.len(),
{
    if rules.len() == 0 {
        Seq::empty()
    } else if case_insensitive_compiles(rules.last().0) {
        rejected_patterns(rules.drop_last())
    } else {
        rejected_patterns(rules.drop_last()).push(rules.last().0)
    }
}

/// The category of the first rule whose pattern matches `class`, else `default`.
pub open spec fn category_for(
    rules: Seq<(Seq<char>, Category)>,
    class: Seq<char>,
    default: Category,
) -> Category
    decreases rules.len(),
{
    if rules.len() == 0 {
        default
    } else if case_insensitive_matches(rules[0].0, class) {
        rules[0].1
    } else {
        category_for(rules.drop_first(), class, default)
    }
}

/// The category at the first `true` of `matched`, else `default`.
pub open spec fn first_matching(matched: Seq<bool>, categories: Seq<Category>, default: Category) -> Category
    decreases matched.len(),
{
    if matched.len() == 0 || categories.len() == 0 {
        default
    } else if matched[0] {
        categories[0]
    } else {
        first_matching(matched.drop_first(), categories.drop_first(), default)
    }
}

/// Separator between class and title in an entity.
pub open spec fn title_separator() -> Seq<char> {
    " — "@
}

/// The entity of an application class and optional title: the class, with
/// the title appended only when titles are tracked, the strategy is
/// `Append`, and the title is present and not empty.
pub open spec fn entity_text(
    track_titles: bool,
    strategy: TitleStrategy,
    class: Seq<char>,
    title: Option<Seq<char>>,
) -> Seq<char> {
    if track_titles && strategy == TitleStrategy::Append && title is Some && title->0.len() > 0 {
        class + title_separator() + title->0
    } else {
        class
    }
}

/// Whether `class` is on `list`, ignoring ASCII case.
pub open spec fn listed(list: Seq<Seq<char>>, class: Seq<char>) -> bool {
    exists|i: int| 0 <= i < list.len() && eq_ascii_case(list[i], class)
}

/// The application filter: a denied class never passes; with an allow list
/// only listed classes pass; without one every other class passes.
pub open spec fn app_allowed(
    allow: Option<Seq<Seq<char>>>,
    deny: Option<Seq<Seq<char>>>,
    class: Seq<char>,
) -> bool {
    &&& !(deny matches Some(d) && listed(d, class))
    &&& (allow matches Some(a) ==> listed(a, class))
}

/// What a builder does: its usable rules, default category, title handling
/// and application lists.
pub struct BuilderModel {
    pub rules: Seq<(Seq<char>, Category)>,
    pub default_category: Category,
    pub track_titles: bool,
    pub title_strategy: TitleStrategy,
    pub allowlist: Option<Seq<Seq<char>>>,
    pub denylist: Option<Seq<Seq<char>>>,
}

/// What the builder made for `config` does.
pub open spec fn builder_model(config: &Config) -> BuilderModel {
    BuilderModel {
        rules: usable_rules(rule_texts(config.category_rules@)),
        default_category: config.default_category,
        track_titles: config.track_titles,
        title_strategy: config.title_strategy,
        allowlist: opt_texts(config.app_allowlist),
        denylist: opt_texts(config.app_denylist),
    }
}

/// A category rule left out because its pattern did not compile.
#[derive(Debug)]
pub struct RejectedRule {
    /// The rule's pattern.
    pub pattern: String,
    /// Why it did not compile.
    pub error: regex::Error,
}

/// The patterns of rejected rules.
pub open spec fn rejected_texts(v: Seq<RejectedRule>) -> Seq<Seq<char>> {
    v.map_values(|r: RejectedRule| r.pattern@)
}

/// A category rule whose pattern compiled.
struct CompiledRule {
    pattern: CasePattern,
    category: Category,
}

/// Constructs heartbeats from focus events with the configured rules.
pub struct HeartbeatBuilder {
    rules: Vec<CompiledRule>,
    skipped: Vec<RejectedRule>,
    default_category: Category,
    track_titles: bool,
    title_strategy: TitleStrategy,
    app_allowlist: Option<Vec<String>>,
    app_denylist: Option<Vec<String>>,
}

impl View for HeartbeatBuilder {
    type V = BuilderModel;

    closed spec fn view(&self) -> BuilderModel {
        BuilderModel {
            rules: self.rules@.map_values(|r: CompiledRule| (r.pattern@, r.category)),
            default_category: self.default_category,
            track_titles: self.track_titles,
            title_strategy: self.title_strategy,
            allowlist: opt_texts(self.app_allowlist),
            denylist: opt_texts(self.app_denylist),
        }
    }
}

/// A copy of a list of strings.
fn copy_strings(v: &Vec<String>) -> (r: Vec<String>)
    ensures
        texts(r@) == texts(v@),
{
    let mut r: Vec<String> = Vec::new();
    let mut i: usize = 0;
    while i < v.len()
        invariant
            i <= v.len(),
            r.len() == i,
            forall|j: int| 0 <= j < i ==> r@[j]@ == v@[j]@,
        decreases v.len() - i,
    {
        r.push(v[i].clone());
        i = i + 1;
    }
    assert(texts(r@) =~= texts(v@));
    r
}

/// A copy of an optional list of strings.
fn copy_opt_strings(o: &Option<Vec<String>>) -> (r: Option<Vec<String>>)
    ensures
        opt_texts(r) == opt_texts(*o),
{
    match o {
        Some(v) => Some(copy_strings(v)),
        None => None,
    }
}

/// Whether `class` is on `list`, ignoring ASCII case.
fn is_listed(list: &Vec<String>, class: &str) -> (r: bool)
    ensures
        r == listed(texts(list@), class@),
{
    let ghost t = texts(list@);
    let mut i: usize = 0;
    while i < list.len()
        invariant
            i <= list.len(),
            t == texts(list@),
            forall|j: int| 0 <= j < i ==> !eq_ascii_case(t[j], class@),
        decreases list.len() - i,
    {
        if eq_ignore_ascii_case(list[i].as_str(), class) {
            assert(eq_ascii_case(t[i as int], class@));
            return true;
        }
        i = i + 1;
    }
    false
}

/// The category at the first `true` of `matched`, else `default`.
pub fn pick_category(matched: &Vec<bool>, categories: &Vec<Category>, default: Category) -> (r:
    Category)
    requires
        matched.len() == categories.len(),
    ensures
        r == first_matching(matched@, categories@, default),
{
    let mut i: usize = 0;
    assert(matched@.skip(0) =~= matched@);
    assert(categories@.skip(0) =~= categories@);
    while i < matched.len()
        invariant
            matched.len() == categories.len(),
            i <= matched.len(),
            first_matching(matched@, categories@, default) == first_matching(
                matched@.skip(i as int),
                categories@.skip(i as int),
                default,
            ),
        decreases matched.len() - i,
    {
        assert(matched@.skip(i as int).drop_first() =~= matched@.skip(i + 1));
        assert(categories@.skip(i as int).drop_first() =~= categories@.skip(i + 1));
        if matched[i] {
            return categories[i];
        }
        i = i + 1;
    }
    default
}

proof fn lemma_first_matching(
    rules: Seq<(Seq<char>, Category)>,
    matched: Seq<bool>,
    categories: Seq<Category>,
    class: Seq<char>,
    default: Category,
)
    requires
        matched.len() == rules.len(),
        categories.len() == rules.len(),
        forall|i: int| 0 <= i < rules.len() ==> matched[i] == case_insensitive_matches(rules[i].0, class),
        forall|i: int| 0 <= i < rules.len() ==> categories[i] == rules[i].1,
    ensures
        first_matching(matched, categories, default) == category_for(rules, class, default),
    decreases rules.len(),
{
    if rules.len() > 0 {
        lemma_first_matching(rules.drop_first(), matched.drop_first(), categories.drop_first(), class, default);
    }
}

impl HeartbeatBuilder {
    /// Patterns of rules left out because they did not compile.
    pub closed spec fn skipped(&self) -> Seq<Seq<char>> {
        rejected_texts(self.skipped@)
    }

    /// A builder for `config`: rules whose pattern does not compile are left
    /// out, and the others keep their order.
    pub fn from_config(config: &Config) -> (r: Self)
        ensures
            r@ == builder_model(config),
            r.skipped() == rejected_patterns(rule_texts(config.category_rules@)),
    {
        let ghost all = rule_texts(config.category_rules@);
        let mut rules: Vec<CompiledRule> = Vec::new();
        let mut skipped: Vec<RejectedRule> = Vec::new();
        let mut i: usize = 0;
        while i < config.category_rules.len()
            invariant
                i <= config.category_rules.len(),
                all == rule_texts(config.category_rules@),
                rules@.map_values(|r: CompiledRule| (r.pattern@, r.category)) == usable_rules(
                    all.take(i as int),
                ),
                rejected_texts(skipped@) == rejected_patterns(all.take(i as int)),
            decreases config.category_rules.len() - i,
        {
            let rule = &config.category_rules[i];
            let ghost before = all.take(i as int);
            assert(all.take(i + 1).drop_last() =~= before);
            assert(all.take(i + 1).last() == (rule.pattern@, rule.category));
            match CasePattern::compile(rule.pattern.as_str()) {
                Ok(pattern) => {
                    rules.push(CompiledRule { pattern, category: rule.category });
                    assert(rules@.map_values(|r: CompiledRule| (r.pattern@, r.category))
                        =~= usable_rules(all.take(i + 1)));
                },
                Err(error) => {
                    skipped.push(RejectedRule { pattern: rule.pattern.clone(), error });
                    assert(rejected_texts(skipped@) =~= rejected_patterns(all.take(i + 1)));
                },
            }
            i = i + 1;
        }
        assert(all.take(i as int) =~= all);
        HeartbeatBuilder {
            rules,
            skipped,
            default_category: config.default_category,
            track_titles: config.track_titles,
            title_strategy: config.title_strategy,
            app_allowlist: copy_opt_strings(&config.app_allowlist),
            app_denylist: copy_opt_strings(&config.app_denylist),
        }
    }

    /// Rules left out because their pattern did not compile, in their order.
    pub fn skipped_rules(&self) -> (r: &Vec<RejectedRule>)
        ensures
            rejected_texts(r@) == self.skipped(),
    {
        &self.skipped
    }

    /// Whether `app_class` passes the allow and deny lists (ignoring ASCII case).
    pub fn is_app_allowed(&self, app_class: &str) -> (r: bool)
        ensures
            r == app_allowed(self@.allowlist, self@.denylist, app_class@),
    {
        if let Some(denylist) = &self.app_denylist {
            if is_listed(denylist, app_class) {
                return false;
            }
        }
        match &self.app_allowlist {
            Some(allowlist) => is_listed(allowlist, app_class),
            None => true,
        }
    }

    /// A heartbeat for `event`: its category by the rules, its entity by the
    /// title settings.
    pub fn build(&self, event: FocusEvent) -> (r: Heartbeat)
        ensures
            r.category == category_for(self@.rules, event@.app_class, self@.default_category),
            r.entity@ == entity_text(
                self@.track_titles,
                self@.title_strategy,
                event@.app_class,
                event@.title,
            ),
            r.source == event,
    {
        let category = self.match_category(event.app_class.as_str());
        let entity = self.build_entity(&event);
        Heartbeat::new(entity, category, event)
    }

    /// The category of `app_class`: that of the first rule that matches,
    /// else the default.
    pub fn match_category(&self, app_class: &str) -> (r: Category)
        ensures
            r == category_for(self@.rules, app_class@, self@.default_category),
    {
        let ghost rs = self@.rules;
        let mut matched: Vec<bool> = Vec::new();
        let mut categories: Vec<Category> = Vec::new();
        let mut i: usize = 0;
        while i < self.rules.len()
            invariant
                i <= self.rules.len(),
                rs == self@.rules,
                rs.len() == self.rules.len(),
                matched.len() == i,
                categories.len() == i,
                forall|j: int| 0 <= j < i ==> matched[j] == case_insensitive_matches(rs[j].0, app_class@),
                forall|j: int| 0 <= j < i ==> categories[j] == rs[j].1,
            decreases self.rules.len() - i,
        {
            let rule = &self.rules[i];
            matched.push(rule.pattern.is_match(app_class));
            categories.push(rule.category);
            i = i + 1;
        }
        proof {
            lemma_first_matching(rs, matched@, categories@, app_class@, self.default_category);
        }
        pick_category(&matched, &categories, self.default_category)
    }

    /// The entity of `event` under the title settings.
    pub fn build_entity(&self, event: &FocusEvent) -> (r: Entity)
        ensures
            r@ == entity_text(
                self@.track_titles,
                self@.title_strategy,
                event@.app_class,
                event@.title,
            ),
    {
        if self.track_titles && self.title_strategy == TitleStrategy::Append {
            if let Some(title) = &event.title {
                if !title.as_str().is_empty() {
                    let mut text = event.app_class.clone();
                    text.append(" — ");
                    text.append(title.as_str());
                    return Entity::from(text);
                }
            }
        }
        Entity::new(event.app_class.as_str())
    }
}

/// The entity rules: without title tracking the entity is the class; with
/// `Append` and a non-empty title it is class, separator and title; an empty
/// or missing title leaves the bare class.
pub proof fn lemma_entity_rules(strategy: TitleStrategy, class: Seq<char>, title: Option<Seq<char>>)
    ensures
        entity_text(false, strategy, class, title) == class,
        entity_text(true, TitleStrategy::Ignore, class, title) == class,
        title is Some && title->0.len() > 0 ==> entity_text(true, TitleStrategy::Append, class, title)
            == class + title_separator() + title->0,
        title is Some && title->0.len() == 0 ==> entity_text(true, TitleStrategy::Append, class, title)
            == class,
        title is None ==> entity_text(true, TitleStrategy::Append, class, title) == class,
{
}

/// The application filter: a class on the deny list is excluded even when it
/// is also on the allow list; without an allow list exactly the classes not
/// denied pass.
pub proof fn lemma_allow_deny(allow: Option<Seq<Seq<char>>>, deny: Option<Seq<Seq<char>>>, class: Seq<char>)
    ensures
        deny matches Some(d) && listed(d, class) ==> !app_allowed(allow, deny, class),
        allow is None ==> (app_allowed(allow, deny, class) <==> !(deny matches Some(d) && listed(d, class))),
{
}

} // verus!
