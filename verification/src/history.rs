//! What holds of every history of a recipe.
//!
//! A history is the log of one recipe as the commands of [`crate::recipe`]
//! can grow it: it begins with an accepted draft, and each further event is
//! what some accepted command appended to the log before it.

use vstd::prelude::*;

use crate::recipe;
use crate::recipe::{
    DeleteRecipeModel, DraftRecipeModel, IngredientFactModel, RecategorizeRecipeModel,
    RecipeAggregateModel, RecipeDraftedModel, RecipeModel, RecipeError, RedescribeRecipeModel,
    RenameRecipeModel, ReplaceIngredientsModel, ReplaceStepsModel, RetagRecipeModel,
    RetimeRecipeModel, StepFactModel, AppendEventModel,
};
use crate::text;

verus! {

/// A command on an existing recipe.
pub enum CommandModel {
    Rename(RenameRecipeModel),
    Recategorize(RecategorizeRecipeModel),
    Retime(RetimeRecipeModel),
    Redescribe(RedescribeRecipeModel),
    Retag(RetagRecipeModel),
    ReplaceIngredients(ReplaceIngredientsModel),
    ReplaceSteps(ReplaceStepsModel),
    Delete(DeleteRecipeModel),
}

impl CommandModel {
    /// The recipe that the command is for.
    pub open spec fn recipe_id(self) -> Seq<char> {
        match self {
            CommandModel::Rename(cmd) => cmd.recipe_id,
            CommandModel::Recategorize(cmd) => cmd.recipe_id,
            CommandModel::Retime(cmd) => cmd.recipe_id,
            CommandModel::Redescribe(cmd) => cmd.recipe_id,
            CommandModel::Retag(cmd) => cmd.recipe_id,
            CommandModel::ReplaceIngredients(cmd) => cmd.recipe_id,
            CommandModel::ReplaceSteps(cmd) => cmd.recipe_id,
            CommandModel::Delete(cmd) => cmd.recipe_id,
        }
    }

    /// The user who gives the command.
    pub open spec fn owner_id(self) -> Seq<char> {
        match self {
            CommandModel::Rename(cmd) => cmd.owner_id,
            CommandModel::Recategorize(cmd) => cmd.owner_id,
            CommandModel::Retime(cmd) => cmd.owner_id,
            CommandModel::Redescribe(cmd) => cmd.owner_id,
            CommandModel::Retag(cmd) => cmd.owner_id,
            CommandModel::ReplaceIngredients(cmd) => cmd.owner_id,
            CommandModel::ReplaceSteps(cmd) => cmd.owner_id,
            CommandModel::Delete(cmd) => cmd.owner_id,
        }
    }

    /// Whether the command is a deletion.
    pub open spec fn is_delete(self) -> bool {
        self is Delete
    }

    /// The event of the command, or which of its fields is not in order.
    pub open spec fn event(self) -> Result<RecipeModel, RecipeError> {
        match self {
            CommandModel::Rename(cmd) => match recipe::renamed(cmd) {
                Err(err) => Err(err),
                Ok(event) => Ok(RecipeModel::RecipeRenamed(event)),
            },
            CommandModel::Recategorize(cmd) => match recipe::recategorized(cmd) {
                Err(err) => Err(err),
                Ok(event) => Ok(RecipeModel::RecipeRecategorized(event)),
            },
            CommandModel::Retime(cmd) => match recipe::retimed(cmd) {
                Err(err) => Err(err),
                Ok(event) => Ok(RecipeModel::RecipeRetimed(event)),
            },
            CommandModel::Redescribe(cmd) => match recipe::redescribed(cmd) {
                Err(err) => Err(err),
                Ok(event) => Ok(RecipeModel::RecipeRedescribed(event)),
            },
            CommandModel::Retag(cmd) => match recipe::retagged(cmd) {
                Err(err) => Err(err),
                Ok(event) => Ok(RecipeModel::RecipeRetagged(event)),
            },
            CommandModel::ReplaceIngredients(cmd) => match recipe::ingredients_replaced(cmd) {
                Err(err) => Err(err),
                Ok(event) => Ok(RecipeModel::IngredientsReplaced(event)),
            },
            CommandModel::ReplaceSteps(cmd) => match recipe::steps_replaced(cmd) {
                Err(err) => Err(err),
                Ok(event) => Ok(RecipeModel::StepsReplaced(event)),
            },
            CommandModel::Delete(_) => Ok(RecipeModel::RecipeDeleted),
        }
    }

    /// What the command does to a recipe in the state `agg`: what it appends
    /// (nothing where it is accepted and changes nothing), or why it is
    /// refused. This is the outcome of the function in [`crate::recipe`] that
    /// carries the command out.
    pub open spec fn outcome(
        self,
        agg: Option<RecipeAggregateModel>,
        version: u16,
    ) -> Result<Option<AppendEventModel>, RecipeError> {
        match self {
            CommandModel::Rename(cmd) => some_append(recipe::renaming(cmd, agg, version)),
            CommandModel::Recategorize(cmd) => some_append(
                recipe::recategorizing(cmd, agg, version),
            ),
            CommandModel::Retime(cmd) => some_append(recipe::retiming(cmd, agg, version)),
            CommandModel::Redescribe(cmd) => some_append(recipe::redescribing(cmd, agg, version)),
            CommandModel::Retag(cmd) => some_append(recipe::retagging(cmd, agg, version)),
            CommandModel::ReplaceIngredients(cmd) => some_append(
                recipe::replacing_ingredients(cmd, agg, version),
            ),
            CommandModel::ReplaceSteps(cmd) => some_append(
                recipe::replacing_steps(cmd, agg, version),
            ),
            CommandModel::Delete(cmd) => recipe::deleted(cmd, agg, version),
        }
    }
}

/// An edit that is accepted always appends.
pub open spec fn some_append(append: Result<AppendEventModel, RecipeError>) -> Result<
    Option<AppendEventModel>,
    RecipeError,
> {
    match append {
        Err(err) => Err(err),
        Ok(event) => Ok(Some(event)),
    }
}

/// Whether `event` is what an accepted draft command writes.
pub open spec fn begins_with(event: RecipeModel) -> bool {
    exists|cmd: DraftRecipeModel|
        event matches RecipeModel::RecipeDrafted(e) && #[trigger] recipe::drafted(cmd) == Ok::<
            RecipeDraftedModel,
            RecipeError,
        >(e)
}

/// Whether `event` is what some command appends in the state `agg`.
pub open spec fn grows_by(agg: Option<RecipeAggregateModel>, event: RecipeModel) -> bool {
    exists|cmd: CommandModel, version: u16| #[trigger]
        cmd.outcome(agg, version) matches Ok(Some(append)) && append.event == event
}

/// Whether a log is the history of a recipe.
pub open spec fn is_history(log: Seq<RecipeModel>) -> bool
    decreases log.len(),
{
    if log.len() == 0 {
        false
    } else if log.len() == 1 {
        begins_with(log[0])
    } else {
        is_history(log.drop_last()) && grows_by(
            recipe::aggregate_after(log.drop_last()),
            log.last(),
        )
    }
}

/// The owner that a draft records.
pub open spec fn drafted_owner(event: RecipeModel) -> Seq<char> {
    event->RecipeDrafted_0.owner_id
}

/// What a refusal looks like, as an outcome.
pub open spec fn refused(err: RecipeError) -> Result<Option<AppendEventModel>, RecipeError> {
    Err(err)
}

/// A command from anyone but the owner is refused, whatever it asks for: for
/// a field that is not in order, and otherwise because it is not the owner's.
pub proof fn law_only_the_owner_commands(
    cmd: CommandModel,
    agg: RecipeAggregateModel,
    version: u16,
)
    requires
        agg.owner_id != cmd.owner_id(),
    ensures
        cmd.outcome(Some(agg), version) == match cmd.event() {
            Err(err) => refused(err),
            Ok(_) => refused(RecipeError::NotOwner),
        },
{
}

/// A recipe that does not exist takes no command.
pub proof fn law_commands_need_a_recipe(cmd: CommandModel, version: u16)
    ensures
        cmd.outcome(None, version) == match cmd.event() {
            Err(err) => refused(err),
            Ok(_) => refused(RecipeError::NotFound),
        },
{
}

/// After deletion every edit of the owner's is refused as such, and a
/// deletion by the owner is accepted but appends nothing.
pub proof fn law_deleted_is_final(cmd: CommandModel, agg: RecipeAggregateModel, version: u16)
    requires
        agg.deleted,
    ensures
        !(cmd.outcome(Some(agg), version) matches Ok(Some(_))),
        agg.owner_id == cmd.owner_id() ==> cmd.outcome(Some(agg), version)
            == if cmd.is_delete() {
            Ok(None)
        } else {
            match cmd.event() {
                Err(err) => refused(err),
                Ok(_) => refused(RecipeError::Deleted),
            }
        },
{
}

/// Until it is deleted, a recipe takes every command of its owner's whose
/// fields are in order, and appends its event on the version that was read.
pub proof fn law_owner_commands_are_accepted(
    cmd: CommandModel,
    agg: RecipeAggregateModel,
    version: u16,
    event: RecipeModel,
)
    requires
        !agg.deleted,
        agg.owner_id == cmd.owner_id(),
        cmd.event() == Ok::<RecipeModel, RecipeError>(event),
    ensures
        cmd.outcome(Some(agg), version) == Ok::<Option<AppendEventModel>, RecipeError>(
            Some(
                AppendEventModel {
                    recipe_id: cmd.recipe_id(),
                    original_version: version,
                    event,
                    requested_by: cmd.owner_id(),
                },
            ),
        ),
{
}

/// A deletion that is accepted leaves the recipe deleted; the same deletion
/// given again appends nothing.
pub proof fn law_delete_twice(
    cmd: DeleteRecipeModel,
    log: Seq<RecipeModel>,
    append: AppendEventModel,
    version: u16,
    later: u16,
)
    requires
        recipe::deleted(cmd, recipe::aggregate_after(log), version) == Ok::<
            Option<AppendEventModel>,
            RecipeError,
        >(Some(append)),
    ensures
        recipe::deleted(cmd, recipe::aggregate_after(log.push(append.event)), later) == Ok::<
            Option<AppendEventModel>,
            RecipeError,
        >(None),
{
    assert(log.push(append.event).drop_last() =~= log);
}

/// In every history the owner is the one who drafted the recipe, and the
/// recipe is deleted if and only if the last event is the deletion.
pub proof fn law_owner_never_changes(log: Seq<RecipeModel>)
    requires
        is_history(log),
    ensures
        log[0] is RecipeDrafted,
        recipe::aggregate_after(log) matches Some(agg) && agg.owner_id == drafted_owner(log[0])
            && agg.deleted == (log.last() is RecipeDeleted),
    decreases log.len(),
{
    let before = log.drop_last();
    if log.len() == 1 {
        assert(before.len() == 0);
    } else {
        law_owner_never_changes(before);
        assert(before[0] == log[0]);
    }
}

/// In every history only the first event is a draft and only the last one can
/// be a deletion.
pub proof fn law_shape_of_history(log: Seq<RecipeModel>, i: int)
    requires
        is_history(log),
        0 <= i < log.len(),
    ensures
        (log[i] is RecipeDrafted) == (i == 0),
        log[i] is RecipeDeleted ==> i == log.len() - 1,
    decreases log.len(),
{
    law_owner_never_changes(log);
    if log.len() > 1 {
        let before = log.drop_last();
        law_owner_never_changes(before);
        if i < log.len() - 1 {
            law_shape_of_history(before, i);
            law_shape_of_history(before, before.len() - 1);
        }
    }
}

// ── What the recipe holds ───────────────────────────────────────────────

/// The content of a recipe, as its history leaves it.
#[verifier::ext_equal]
pub struct Content {
    pub owner_id: Seq<char>,
    pub title: Seq<char>,
    pub meal_type: Seq<char>,
    pub cuisine: Seq<char>,
    pub emoji: Seq<char>,
    pub prep_minutes: u32,
    pub cook_minutes: u32,
    pub servings: u32,
    pub difficulty: Seq<char>,
    pub description: Seq<char>,
    pub tags: Seq<Seq<char>>,
    pub ingredients: Seq<IngredientFactModel>,
    pub steps: Seq<StepFactModel>,
}

/// The content that a draft begins with.
pub open spec fn first_content(event: RecipeDraftedModel) -> Content {
    Content {
        owner_id: event.owner_id,
        title: event.title,
        meal_type: event.meal_type,
        cuisine: event.cuisine,
        emoji: event.emoji,
        prep_minutes: event.prep_minutes,
        cook_minutes: event.cook_minutes,
        servings: event.servings,
        difficulty: event.difficulty,
        description: event.description,
        tags: event.tags,
        ingredients: event.ingredients,
        steps: event.steps,
    }
}

/// The content after one more event; `None` where there is no recipe.
pub open spec fn content_step(content: Option<Content>, event: RecipeModel) -> Option<Content> {
    match event {
        RecipeModel::RecipeDrafted(e) => Some(first_content(e)),
        RecipeModel::RecipeDeleted => None,
        _ => match content {
            None => None,
            Some(c) => Some(
                match event {
                    RecipeModel::RecipeRenamed(e) => Content { title: e.new_title, ..c },
                    RecipeModel::RecipeRecategorized(e) => Content {
                        meal_type: e.meal_type,
                        cuisine: e.cuisine,
                        emoji: e.emoji,
                        ..c
                    },
                    RecipeModel::RecipeRetimed(e) => Content {
                        prep_minutes: e.prep_minutes,
                        cook_minutes: e.cook_minutes,
                        servings: e.servings,
                        difficulty: e.difficulty,
                        ..c
                    },
                    RecipeModel::RecipeRedescribed(e) => Content {
                        description: e.description,
                        ..c
                    },
                    RecipeModel::RecipeRetagged(e) => Content { tags: e.tags, ..c },
                    RecipeModel::IngredientsReplaced(e) => Content {
                        ingredients: e.ingredients,
                        ..c
                    },
                    RecipeModel::StepsReplaced(e) => Content { steps: e.steps, ..c },
                    _ => c,
                },
            ),
        },
    }
}

/// The content after a whole log.
pub open spec fn content_after(log: Seq<RecipeModel>) -> Option<Content>
    decreases log.len(),
{
    if log.len() == 0 {
        None
    } else {
        content_step(content_after(log.drop_last()), log.last())
    }
}

/// What is promised of the content of a recipe: it has an owner, a title, a
/// meal type of the catalogue, an emoji, at least one serving, and at least
/// one ingredient and one step, none of which is blank.
pub open spec fn sound(content: Content) -> bool {
    &&& !text::blank(content.owner_id)
    &&& !text::blank(content.title)
    &&& recipe::meal_type_of(content.meal_type) is Some
    &&& !text::blank(content.emoji)
    &&& content.servings >= 1
    &&& content.ingredients.len() >= 1
    &&& forall|i: int|
        0 <= i < content.ingredients.len() ==> !text::blank(
            (#[trigger] content.ingredients[i]).name,
        )
    &&& content.steps.len() >= 1
    &&& forall|i: int|
        0 <= i < content.steps.len() ==> !text::blank((#[trigger] content.steps[i]).text)
}

proof fn lemma_filter_keeps<A>(items: Seq<A>, keep: spec_fn(A) -> bool, i: int)
    requires
        0 <= i < items.filter(keep).len(),
    ensures
        keep(items.filter(keep)[i]),
    decreases items.len(),
{
    reveal(Seq::filter);
    let rest = items.drop_last();
    if i < rest.filter(keep).len() {
        lemma_filter_keeps(rest, keep, i);
    }
}

proof fn lemma_named_rows(items: Seq<IngredientFactModel>)
    ensures
        forall|i: int|
            0 <= i < items.filter(recipe::named()).len() ==> !text::blank(
                (#[trigger] items.filter(recipe::named())[i]).name,
            ),
{
    assert forall|i: int| 0 <= i < items.filter(recipe::named()).len() implies !text::blank(
        (#[trigger] items.filter(recipe::named())[i]).name,
    ) by {
        lemma_filter_keeps(items, recipe::named(), i);
    }
}

proof fn lemma_worded_rows(items: Seq<StepFactModel>)
    ensures
        forall|i: int|
            0 <= i < items.filter(recipe::worded()).len() ==> !text::blank(
                (#[trigger] items.filter(recipe::worded())[i]).text,
            ),
{
    assert forall|i: int| 0 <= i < items.filter(recipe::worded()).len() implies !text::blank(
        (#[trigger] items.filter(recipe::worded())[i]).text,
    ) by {
        lemma_filter_keeps(items, recipe::worded(), i);
    }
}

proof fn lemma_emoji(emoji: Seq<char>, meal_type: recipe::MealType)
    ensures
        !text::blank(recipe::emoji_or_default(emoji, meal_type)),
        recipe::meal_type_of(meal_type.slug_text()) is Some,
{
    reveal_strlit("🥗");
    reveal_strlit("🍛");
    reveal_strlit("🥖");
    reveal_strlit("🍰");
    recipe::law_meal_type_slug_round_trip(meal_type, Seq::empty());
    let own = meal_type.emoji_text();
    assert(!text::is_white_space(own[0]));
}

/// An accepted draft is sound.
pub proof fn law_drafts_are_sound(cmd: DraftRecipeModel)
    requires
        recipe::drafted(cmd) is Ok,
    ensures
        sound(first_content(recipe::drafted(cmd)->Ok_0)),
{
    lemma_named_rows(cmd.ingredients);
    lemma_worded_rows(cmd.steps);
    lemma_emoji(cmd.emoji, cmd.meal_type);
}

/// An accepted command keeps a sound recipe sound, and it leaves the owner as
/// it was; a deletion leaves no recipe.
pub proof fn law_commands_keep_soundness(
    cmd: CommandModel,
    agg: Option<RecipeAggregateModel>,
    version: u16,
    content: Content,
)
    requires
        sound(content),
        cmd.outcome(agg, version) matches Ok(Some(_)),
    ensures
        match content_step(Some(content), (cmd.outcome(agg, version)->Ok_0->0).event) {
            Some(next) => sound(next) && next.owner_id == content.owner_id && !cmd.is_delete(),
            None => cmd.is_delete(),
        },
{
    match cmd {
        CommandModel::Rename(c) => {
            text::lemma_blank_iff_trimmed_empty(c.new_title);
            text::lemma_trimmed_twice(c.new_title);
            text::lemma_blank_iff_trimmed_empty(text::trimmed(c.new_title));
        },
        CommandModel::Recategorize(c) => {
            lemma_emoji(c.emoji, c.meal_type);
        },
        CommandModel::ReplaceIngredients(c) => {
            lemma_named_rows(c.ingredients);
        },
        CommandModel::ReplaceSteps(c) => {
            lemma_worded_rows(c.steps);
        },
        _ => {},
    }
}

/// In every history the recipe is there, sound and with its first owner,
/// until it is deleted.
pub proof fn law_histories_are_sound(log: Seq<RecipeModel>)
    requires
        is_history(log),
    ensures
        match content_after(log) {
            Some(content) => sound(content) && content.owner_id == drafted_owner(log[0])
                && !(log.last() is RecipeDeleted),
            None => log.last() is RecipeDeleted,
        },
    decreases log.len(),
{
    let before = log.drop_last();
    if log.len() == 1 {
        let cmd = choose|cmd: DraftRecipeModel|
            log[0] matches RecipeModel::RecipeDrafted(e) && #[trigger] recipe::drafted(cmd) == Ok::<
                RecipeDraftedModel,
                RecipeError,
            >(e);
        law_drafts_are_sound(cmd);
        assert(before.len() == 0);
    } else {
        law_histories_are_sound(before);
        law_owner_never_changes(before);
        assert(before[0] == log[0]);
        let agg = recipe::aggregate_after(before);
        let (cmd, version) = choose|cmd: CommandModel, version: u16| #[trigger]
            cmd.outcome(agg, version) matches Ok(Some(append)) && append.event == log.last();
        if agg->0.deleted {
            law_deleted_is_final(cmd, agg->0, version);
        } else {
            law_commands_keep_soundness(cmd, agg, version, content_after(before)->0);
        }
    }
}

/// A draft gives a recipe all of its content, a deletion takes it away, and
/// every other event changes the parts that it names and no others.
pub proof fn law_content_follows_the_events(
    content: Content,
    other: Option<Content>,
    draft: RecipeDraftedModel,
    event: RecipeModel,
)
    requires
        !(event is RecipeDrafted),
        !(event is RecipeDeleted),
    ensures
        content_step(other, RecipeModel::RecipeDeleted) is None,
        content_step(None, event) is None,
        content_step(other, RecipeModel::RecipeDrafted(draft)) matches Some(c) && c.owner_id
            == draft.owner_id && c.title == draft.title && c.meal_type == draft.meal_type
            && c.cuisine == draft.cuisine && c.emoji == draft.emoji && c.prep_minutes
            == draft.prep_minutes && c.cook_minutes == draft.cook_minutes && c.servings
            == draft.servings && c.difficulty == draft.difficulty && c.description
            == draft.description && c.tags == draft.tags && c.ingredients == draft.ingredients
            && c.steps == draft.steps,
        ({
            let next = content_step(Some(content), event)->0;
            &&& content_step(Some(content), event) is Some
            &&& next.owner_id == content.owner_id
            &&& event is RecipeRenamed ==> next.title == event->RecipeRenamed_0.new_title
            &&& !(event is RecipeRenamed) ==> next.title == content.title
            &&& event is RecipeRecategorized ==> next.meal_type == event->RecipeRecategorized_0.meal_type
            &&& !(event is RecipeRecategorized) ==> next.meal_type == content.meal_type
            &&& event is RecipeRecategorized ==> next.cuisine == event->RecipeRecategorized_0.cuisine
            &&& !(event is RecipeRecategorized) ==> next.cuisine == content.cuisine
            &&& event is RecipeRecategorized ==> next.emoji == event->RecipeRecategorized_0.emoji
            &&& !(event is RecipeRecategorized) ==> next.emoji == content.emoji
            &&& event is RecipeRetimed ==> next.servings == event->RecipeRetimed_0.servings
            &&& !(event is RecipeRetimed) ==> next.servings == content.servings
            &&& event is RecipeRetimed ==> next.difficulty == event->RecipeRetimed_0.difficulty
            &&& !(event is RecipeRetimed) ==> next.difficulty == content.difficulty
            &&& event is RecipeRedescribed ==> next.description == event->RecipeRedescribed_0.description
            &&& !(event is RecipeRedescribed) ==> next.description == content.description
            &&& event is IngredientsReplaced ==> next.ingredients == event->IngredientsReplaced_0.ingredients
            &&& !(event is IngredientsReplaced) ==> next.ingredients == content.ingredients
            &&& event is StepsReplaced ==> next.steps == event->StepsReplaced_0.steps
            &&& !(event is StepsReplaced) ==> next.steps == content.steps
            &&& event is RecipeRetimed ==> next.prep_minutes == event->RecipeRetimed_0.prep_minutes
            &&& !(event is RecipeRetimed) ==> next.prep_minutes == content.prep_minutes
            &&& event is RecipeRetimed ==> next.cook_minutes == event->RecipeRetimed_0.cook_minutes
            &&& !(event is RecipeRetimed) ==> next.cook_minutes == content.cook_minutes
            &&& event is RecipeRetagged ==> next.tags == event->RecipeRetagged_0.tags
            &&& !(event is RecipeRetagged) ==> next.tags == content.tags
        }),
{
}

/// The content after a log with one more event is the content before it,
/// changed by that event.
pub proof fn law_content_is_folded_from_the_log(log: Seq<RecipeModel>, event: RecipeModel)
    ensures
        content_after(Seq::<RecipeModel>::empty()) is None,
        content_after(log.push(event)) == content_step(content_after(log), event),
{
    assert(log.push(event).drop_last() =~= log);
}

} // verus!
