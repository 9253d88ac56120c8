use violin::block::block_registry::{
    serialize_block_atlas, serialize_terrain_atlas, AllBlockAtlasEntry, BlockAtlasEntryKind,
    Faces, PerFaceBlockAtlasEntry, TerrainAtlasEntry,
};
use violin::block::component::{
    BlockCollisionBoxComponent, BlockComponent, BlockComponentKind,
    BlockDestructibleByExplosionComponent, BlockDestructibleByMiningComponent,
    BlockFlammableComponent, BlockSelectionBoxComponent,
};
use violin::block::permutation::BlockPermutation;
use violin::block::state::{BlockState, BlockStateKind, NumericBlockState, RangedBlockState};
use violin::block::Block;
use violin::image::ComposeOptions;
use violin::instance::ComponentInstance;
use violin::item::component::ItemComponentKind;
use violin::item::utils::{ItemTextureDescriptor, ItemWearableSlot};
use violin::item::Item;
use violin::json::JsonValue;
use violin::localization::Localization;
use violin::recipe::{FurnaceRecipe, Recipe, RecipeIO, ShapedRecipe, ShapelessRecipe};
use violin::script_additions::{CustomCommand, CustomCommandArg};
use violin::vio::{Buildable, ColorCode, Identifier, MolangStatement, RGBColor, SemVer, Vec3};

#[test]
fn renders_identifiers() {
    assert_eq!(Identifier::new("minecraft", "dirt").render(), "minecraft:dirt");
    let owned = Identifier::new("violin".to_string(), "gem".to_string());
    assert_eq!(owned.render(), "violin:gem");
}

#[test]
fn renders_versions() {
    assert_eq!(SemVer::new(1, 2, 3).render(), "1.2.3");
    assert_eq!(SemVer::new_beta(1, 2, 3).render(), "1.2.3-beta");
    assert_eq!(SemVer::new(1, 2, 3).render_commas(), "1, 2, 3");
    assert_eq!(SemVer::current().render(), "1.21.50");
}

#[test]
fn renders_colors() {
    let c = RGBColor::new(255, 0, 10);
    assert_eq!(c.render_as_hex(), "#FF0A");
    assert_eq!(c.render_as_arr(), [255, 0, 10]);
    assert_eq!(ColorCode::Red.str_code(), "\u{a7}c");
    assert_eq!(ColorCode::Black.str_code(), "\u{a7}0");
}

#[test]
fn serializes_block_components() {
    assert_eq!(
        BlockCollisionBoxComponent::full().serialize(),
        "\"minecraft:collision_box\": {\"origin\": [-8, 0, -8], \"size\": [16, 16, 16]}"
    );
    assert_eq!(
        BlockCollisionBoxComponent::disabled().serialize(),
        "\"minecraft:collision_box\": false"
    );
    assert_eq!(
        BlockDestructibleByExplosionComponent::indestructible().serialize(),
        "\"minecraft:destructible_by_explosion\": false"
    );
    assert_eq!(
        BlockDestructibleByMiningComponent::instant_mine().serialize(),
        "\"minecraft:destructible_by_mining\": {\"seconds_to_destroy\": 0}"
    );
    assert_eq!(
        BlockFlammableComponent::default().serialize(),
        "\"minecraft:flammable\": {\"catch_chance_modifier\": 5, \"destroy_chance_modifier\": 2}"
    );
    assert_eq!(
        BlockSelectionBoxComponent::new(Vec3::new(0, 0, 0), Vec3::new(8, 8, 8)).serialize(),
        "\"minecraft:selection_box\": {\"origin\": [0, 0, 0], \"size\": [8, 8, 8]}"
    );
}

#[test]
fn serializes_blocks() {
    let mut block = Block::new(Identifier::new("violin", "stone"));
    let block = block.using_components(vec![
        BlockComponentKind::Flammable(BlockFlammableComponent::default()),
        BlockComponentKind::DestructibleByMining(BlockDestructibleByMiningComponent::new(3)),
    ]);
    let expected = "{ \"format_version\": \"1.21.50\", \"minecraft:block\": { \"description\": \
                    { \"identifier\": \"violin:stone\", \"states\": {} }, \"components\": \
                    {\"minecraft:flammable\": {\"catch_chance_modifier\": 5, \
                    \"destroy_chance_modifier\": 2}, \"minecraft:destructible_by_mining\": \
                    {\"seconds_to_destroy\": 3}}, \"permutations\": [] } }";
    assert_eq!(block.serialize(), expected);
}

#[test]
fn mutators_leave_the_receiver_unchanged() {
    let mut block = Block::new(Identifier::new("violin", "ore"));
    let updated = block.using_components(vec![BlockComponentKind::Flammable(
        BlockFlammableComponent::default(),
    )]);
    // the receiver keeps its empty component list; only the copy changed
    assert_eq!(block.components.len(), 0);
    assert_eq!(updated.components.len(), 1);
    assert_eq!(block.type_id().render(), updated.type_id().render());
}

#[test]
fn serializes_block_states_and_permutations() {
    let numeric = BlockStateKind::Numeric(NumericBlockState::new(
        Identifier::new("violin", "level"),
        vec![0, 1, 2],
    ));
    assert_eq!(numeric.serialize(), "\"violin:level\": [0, 1, 2]");
    let ranged = BlockStateKind::Ranged(RangedBlockState::new(
        Identifier::new("violin", "age"),
        0,
        7,
    ));
    assert_eq!(ranged.serialize(), "\"violin:age\": {\"min\": 0, \"max\": 7}");
    let perm = BlockPermutation::new(
        "q.block_state('violin:age') == 7",
        vec![BlockComponentKind::Flammable(BlockFlammableComponent::new(1, 1))],
    );
    assert_eq!(
        perm.serialize(),
        "{\"condition\": \"q.block_state('violin:age') == 7\", \"components\": \
         {\"minecraft:flammable\": {\"catch_chance_modifier\": 1, \
         \"destroy_chance_modifier\": 1}}}"
    );
}

#[test]
fn serializes_items() {
    let inst = ComponentInstance {
        tag: "minecraft:damage".to_string(),
        transparent: false,
        fields: vec![("value".to_string(), JsonValue::Int(7))],
    };
    let mut item = Item::new(Identifier::new("violin", "sword"));
    let item = item.using_components(vec![ItemComponentKind::custom(&inst)]);
    let expected = "{ \"format_version\": \"1.21.50\", \"minecraft:item\": { \"description\": \
                    { \"identifier\": \"violin:sword\" }, \"components\": \
                    {\"minecraft:damage\": {\"value\": 7}} } }";
    assert_eq!(item.serialize(), expected);
}

#[test]
fn item_with_component_appends() {
    let mut item = Item::new(Identifier::new("violin", "wand"));
    let inst = ComponentInstance {
        tag: "minecraft:glint".to_string(),
        transparent: true,
        fields: vec![("value".to_string(), JsonValue::Bool(true))],
    };
    let copy = item.with_component(ItemComponentKind::custom(&inst));
    assert_eq!(item.components.len(), 1);
    assert_eq!(copy.components.len(), 1);
    assert_eq!(copy.serialize(), item.serialize());
}

#[test]
fn serializes_recipe_ingredients() {
    let typed = RecipeIO::new_typed(Identifier::new("minecraft", "stick"));
    assert_eq!(typed.serialize(), "{\"item\": \"minecraft:stick\", \"data\": 0}");
    let mut typed = typed;
    let counted = typed.using_count(2);
    assert_eq!(counted.serialize(), "{\"item\": \"minecraft:stick\", \"data\": 0, \"count\": 2}");
    // the receiver keeps its count-less shape
    assert_eq!(typed.serialize(), "{\"item\": \"minecraft:stick\", \"data\": 0}");
    let mut tagged = RecipeIO::new_tagged("wood");
    let keyed = tagged.using_key('W');
    assert_eq!(keyed.serialize(), "\"W\": {\"tag\": \"wood\"}");
}

#[test]
fn serializes_furnace_recipes() {
    let mut recipe = FurnaceRecipe::new(
        Identifier::new("violin", "smelt_gem"),
        RecipeIO::new_typed(Identifier::new("violin", "ore")),
        Identifier::new("violin", "gem"),
    );
    let recipe = recipe.using_tags(vec!["furnace"]);
    let expected = "{ \"minecraft:recipe_furnace\": { \"description\": { \"identifier\": \
                    \"violin:smelt_gem\" }, \"tags\": [\"furnace\"], \"input\": {\"item\": \
                    \"violin:ore\", \"data\": 0}, \"output\": \"violin:gem\" } }";
    assert_eq!(recipe.serialize(), expected);
    assert_eq!(recipe.id().render(), "violin:smelt_gem");
}

#[test]
fn serializes_shapeless_recipes() {
    let mut recipe = ShapelessRecipe::new(
        Identifier::new("violin", "mix"),
        RecipeIO::new_typed(Identifier::new("violin", "dust")),
    );
    let recipe = recipe.using_ingredients(vec![
        RecipeIO::new_typed(Identifier::new("minecraft", "sand")),
        RecipeIO::new_tagged("gravel"),
    ]);
    let expected = "{ \"minecraft:recipe_shapeless\": { \"description\": { \"identifier\": \
                    \"violin:mix\" }, \"tags\": [], \"ingredients\": [{\"item\": \
                    \"minecraft:sand\", \"data\": 0},{\"tag\": \"gravel\"}], \"result\": \
                    {\"item\": \"violin:dust\", \"data\": 0} } }";
    assert_eq!(recipe.serialize(), expected);
}

#[test]
fn serializes_shaped_recipes() {
    let mut recipe = ShapedRecipe::new(
        Identifier::new("violin", "blade"),
        RecipeIO::new_typed(Identifier::new("violin", "sword")),
    );
    let mut recipe = recipe.using_pattern(vec!["I", "S"]);
    let mut ingredient = RecipeIO::new_typed(Identifier::new("minecraft", "iron_ingot"));
    let recipe = recipe.using_ingredients(vec![ingredient.using_key('I')]);
    let expected = "{ \"minecraft:recipe_shaped\": { \"description\": { \"identifier\": \
                    \"violin:blade\" }, \"tags\": [], \"pattern\": [\"I\", \"S\"], \"key\": \
                    {\"I\": {\"item\": \"minecraft:iron_ingot\", \"data\": 0}}, \"result\": \
                    {\"item\": \"violin:sword\", \"data\": 0} } }";
    assert_eq!(recipe.serialize(), expected);
}

#[test]
fn localization_replaces_duplicate_names() {
    let mut loc = Localization::new("en_US");
    loc.add_item_name(Identifier::new("violin", "gem"), "Gem");
    loc.add_item_name(Identifier::new("violin", "gem"), "Polished Gem");
    loc.add_block_name(Identifier::new("violin", "stone"), "Odd Stone");
    loc.add_custom("menu.title", "Violin");
    assert_eq!(
        loc.serialize(),
        "item.violin:gem.name=Polished Gemtile.violin:stone.name=Odd Stonemenu.title=Violin"
    );
    assert_eq!(loc.language, "en_US");
}

#[test]
fn serializes_atlases() {
    let all = AllBlockAtlasEntry::new(Identifier::new("violin", "stone"), "stone_tex", "stone");
    let faces = Faces::new("u", "d", "n", "s", "e", "w");
    let per_face = PerFaceBlockAtlasEntry::new(Identifier::new("violin", "log"), faces, "wood");
    let atlas = vec![
        BlockAtlasEntryKind::All(all),
        BlockAtlasEntryKind::PerFace(per_face),
    ];
    let expected = "\"violin:stone\": {\"sound\": \"stone\", \"textures\": \"stone_tex\"},\
                    \"violin:log\": {\"sound\": \"wood\", \"textures\": {\"up\": \"u\", \
                    \"down\": \"d\", \"north\": \"n\", \"south\": \"s\", \"east\": \"e\", \
                    \"west\": \"w\"}}";
    assert_eq!(serialize_block_atlas(&atlas), expected);
    let terrain = vec![TerrainAtlasEntry {
        id: "violin:stone".to_string(),
        texture_path: "textures/blocks/stone".to_string(),
    }];
    assert_eq!(
        serialize_terrain_atlas(&terrain),
        "\"violin:stone\": {\"textures\": \"textures/blocks/stone\"}"
    );
}

#[test]
fn builds_custom_commands() {
    let cmd = CustomCommand::new(
        "!",
        "wave",
        "./commands/wave.js",
        vec![CustomCommandArg::Str, CustomCommandArg::Num],
    );
    assert_eq!(cmd.command_prefix(), "!wave");
    assert_eq!(cmd.args_text(), "args[0],args[1]");
    assert_eq!(cmd.arg_types_text(), "[\"string\",\"number\"]");
    assert_eq!(cmd.import_line(), "\nimport \"./viogen_commands/wave\"");
}

#[test]
fn builds_item_helpers() {
    let descriptor = ItemTextureDescriptor::new("gem").using_dyed("gem_dyed");
    assert_eq!(descriptor.default, "gem");
    assert_eq!(descriptor.dyed.as_deref(), Some("gem_dyed"));
    assert_eq!(descriptor.icon_trim, None);
    assert_eq!(ItemWearableSlot::ArmorHead.str_slot(), "slot.armor.head");
    let molang = MolangStatement::new("q.is_sneaking");
    assert_eq!(molang.0, "q.is_sneaking");
}

#[test]
fn composes_with_repeats() {
    let options = ComposeOptions::default().using_repeats(3);
    assert_eq!(options.repeats, 3);
}

#[test]
fn renders_negative_numbers() {
    let mut io = RecipeIO::new_typed(Identifier::new("ns", "x"));
    let io = io.using_data(-5);
    assert_eq!(io.serialize(), "{\"item\": \"ns:x\", \"data\": -5}");
    assert_eq!(SemVer::new(-1, 0, 0).render(), "-1.0.0");
}

#[test]
fn builds_shared_values() {
    let recipe = FurnaceRecipe::new(
        Identifier::new("ns", "r"),
        RecipeIO::new_typed(Identifier::new("ns", "a")),
        Identifier::new("ns", "b"),
    );
    let shared = recipe.build();
    assert_eq!(shared.id().render(), "ns:r");
}

#[test]
fn atlas_keys_replace_colons() {
    assert_eq!(violin::item::atlas_key("violin:gem"), "violin_gem");
    assert_eq!(violin::item::atlas_key("plain"), "plain");
}
