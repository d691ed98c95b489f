//! Which splits fire: the boss battles and cinematics that end a segment, each
//! splitting once per run when its setting is on.
use vstd::prelude::*;
use vstd::string::*;
use crate::gamestate::GameState;
use crate::settings::Settings;
use crate::tables::{NameSet, NameTable};

verus! {

/// The split that finishing each battle reaches, by encounter name.
///
/// The tables hold the only events that split. The settings
/// `monolith_train_cs`, `lumiere_start_cs`, `fw_exit`, `fb_exit`,
/// `sm_lancelier_x2`, `sm_abbest_volester_x2`, `fw_demineur_x3`, `fw_noco`,
/// `fw_bruler_luster_demineur` and `lumiere_abberation` are the value of no
/// entry, so turning them on makes no split fire.
pub open spec fn battle_split_table() -> Map<Seq<char>, Seq<char>> {
        Map::empty()
            .insert("LU_Act1_MaelleNoTutorialCivilian"@, "maelle_tutorial"@)
            .insert("SM_FirstLancelierNoTuto*1"@, "sm_first_lancelier"@)
            .insert("SM_FirstPortier_NoTuto*1"@, "sm_first_portier"@)
            .insert("SM_Volester_TutoFlying*1"@, "sm_first_volesters"@)
            .insert("SM_Eveque_ShieldTutorial*1"@, "sm_eveque"@)
            .insert("GO_Curator_JumpTutorial*1"@, "fw_curator"@)
            .insert("GO_Goblu"@, "fw_goblu"@)
            .insert("Petank_Blue"@, "as_petank"@)
            .insert("AS_PotatoBagTank*1_IntroFight"@, "as_robust_sakapatate"@)
            .insert("AS_PotatoBagBoss"@, "as_ultimate_sakapatate"@)
            .insert("QUEST_BertrandBigHands*1"@, "gv_bertrand"@)
            .insert("QUEST_DominiqueGiantFeet*1"@, "gv_dominique"@)
            .insert("QUEST_MatthieuTheColossus*1"@, "gv_matthieu"@)
            .insert("GV_Sciel*1"@, "gv_sciel"@)
            .insert("EN_Francois"@, "en_francois"@)
            .insert("WM_Cruler_Lancelier_Demineur"@, "wm_cruler_lancelier_demineur"@)
            .insert("SC_LampMaster"@, "swc_lampmaster"@)
            .insert("FB_Chalier_GradientCounterTutorial*1"@, "fb_chalier"@)
            .insert("FB_DuallisteLR"@, "fb_dualliste"@)
            .insert("WM_Troubadour_Gault_Demineur"@, "wm_troubadour_gault_demineur"@)
            .insert("MS_Monoco"@, "ms_monoco"@)
            .insert("MM_Stalact_GradientAttackTutorial1"@, "ms_stalact"@)
            .insert("OL_VersoDisappears_Chevaliere2"@, "ol_chevaliers"@)
            .insert("OL_MirrorRenoir_FirstFight"@, "ol_renoir"@)
            .insert("MF_Axon_Visages"@, "visages_mask_keeper"@)
            .insert("SI_Glissando*1"@, "sirene_glissando"@)
            .insert("SI_Axon_Sirene"@, "sirene_sirene"@)
            .insert("SI_Axon_Sirene"@, "sirene_sirene"@)
            .insert("ML_PaintressIntro"@, "monolith_feetress"@)
            .insert("MM_MirrorRenoir"@, "monolith_renoir"@)
            .insert("L_Boss_Paintress_P1"@, "monolith_paintress"@)
            .insert("L_Boss_Curator_P1"@, "lumiere_renoir"@)
            .insert("FinalBossVerso"@, "lumiere_verso"@)
            .insert("FinalBossMaelle"@, "lumiere_maelle"@)
            .insert("QUEST_FrancoisDuel"@, "quest_francoisduel"@)
            .insert("VD_GestralBalloon*1"@, "vd_balloon_gestral"@)
            .insert("Quest_FeintFight"@, "vd_frappe"@)
            .insert("VD_Osquio*1"@, "vd_osquio"@)
            .insert("YF_GlaiseBoss*1"@, "yh_glaise"@)
            .insert("Merchant_YellowForest"@, "yh_merchant"@)
            .insert("WM_Sprong"@, "wm_sprong"@)
            .insert("WM_Serpenphare"@, "wm_serpenphare"@)
            .insert("MM_DanseuseAlpha*1"@, "ol_chromatic_danseuse"@)
            .insert("Boss_Simon*1"@, "rd_simon_p1"@)
            .insert("Boss_SimonPhase2*1"@, "rd_simon_p2"@)
            .insert("CFH_Boss_Goblu"@, "fm_goblu"@)
            .insert("CFH_Boss_Eveque"@, "fm_eveques"@)
            .insert("CFH_Gargant*1_Danseuse*2"@, "fm_gargant"@)
            .insert("CFH_Boss_Lampmaster"@, "fm_lampmaster"@)
            .insert("CFH_Boss_Dualliste"@, "fm_dualliste"@)
            .insert("CFH_Boss_Clea"@, "fm_clea"@)
            .insert("Boss_Clea_ALPHA"@, "et_clea_unleashed"@)
            .insert("Boss_LampmasterALPHA"@, "et_chromatic_lampmaster"@)
            .insert("Boss_Duolliste_P1"@, "et_duolliste"@)
            .insert("Boss_SimonALPHA*1"@, "et_simon_tds"@)
}

/// The split that the start of each cinematic reaches, by cinematic name.
pub open spec fn cutscene_split_table() -> Map<Seq<char>, Seq<char>> {
        Map::empty()
            .insert("LS_Title_Act1"@, "act_1_start"@)
            .insert("LS_Title_Act2"@, "act_2_start"@)
            .insert("LS_Title_Act3"@, "act_3_start"@)
}

/// The split that the latest sample reaches, if any: where a battle just
/// finished, the entry of its encounter name in the battle table; otherwise,
/// where a cinematic just started, the entry of its name in the cinematic
/// table.
pub open spec fn reached_split(v: SplitsView, state: GameState) -> Option<Seq<char>> {
    if state.battle.finished() {
        let name = state.battle.battle_manager_encounter_name@->0.old;
        if v.battle.contains_key(name) {
            Some(v.battle[name])
        } else {
            None
        }
    } else if state.cutscene.started() {
        let name = state.cutscene.name().current;
        if v.cutscene.contains_key(name) {
            Some(v.cutscene[name])
        } else {
            None
        }
    } else {
        None
    }
}

/// Whether the timer splits: a split is reached, its setting is on, and it
/// has not been done in this run.
pub open spec fn split_fires(v: SplitsView, state: GameState, settings: Settings) -> bool {
    match reached_split(v, state) {
        Some(k) => settings.setting(k) && !v.done.contains(k),
        None => false,
    }
}

/// The splits after the sample: a reached split whose setting is on is done.
pub open spec fn after_sample(v: SplitsView, state: GameState, settings: Settings) -> SplitsView {
    match reached_split(v, state) {
        Some(k) => if settings.setting(k) {
            SplitsView { done: v.done.insert(k), ..v }
        } else {
            v
        },
        None => v,
    }
}

/// What `should_split` reads of the game state is there, as far as it reads.
pub open spec fn split_readable(state: GameState) -> bool {
    &&& state.battle.battle_flow_state@ is Some
    &&& state.battle.finished() ==> state.battle.battle_manager_encounter_name@ is Some
    &&& !state.battle.finished() ==> state.cutscene.cs_cinematic_name@ is Some
}

/// The splits done in this run, and the two tables.
pub struct SplitsView {
    pub done: Set<Seq<char>>,
    pub battle: Map<Seq<char>, Seq<char>>,
    pub cutscene: Map<Seq<char>, Seq<char>>,
}

pub struct Splits {
    done_splits: NameSet,
    battle_splits: NameTable,
    cutscene_start_splits: NameTable,
}

impl Splits {
    pub closed spec fn wf(&self) -> bool {
        &&& self.done_splits.wf()
        &&& self.done_splits.view().finite()
        &&& self.battle_splits.wf()
        &&& self.cutscene_start_splits.wf()
    }

    pub closed spec fn view(&self) -> SplitsView {
        SplitsView {
            done: self.done_splits@,
            battle: self.battle_splits@,
            cutscene: self.cutscene_start_splits@,
        }
    }

    /// No split done yet, and the tables of battle and cinematic splits.
    pub fn new() -> (s: Splits)
        ensures
            s.wf(),
            s.view().done == Set::<Seq<char>>::empty(),
            s.view().done.finite(),
            s.view().battle == battle_split_table(),
            s.view().cutscene == cutscene_split_table(),
    {
        let done_splits = NameSet::new();
        let mut battle_splits = NameTable::new();
        battle_splits.insert(String::from_str("LU_Act1_MaelleNoTutorialCivilian"), String::from_str("maelle_tutorial"));
        battle_splits.insert(String::from_str("SM_FirstLancelierNoTuto*1"), String::from_str("sm_first_lancelier"));
        battle_splits.insert(String::from_str("SM_FirstPortier_NoTuto*1"), String::from_str("sm_first_portier"));
        battle_splits.insert(String::from_str("SM_Volester_TutoFlying*1"), String::from_str("sm_first_volesters"));
        battle_splits.insert(String::from_str("SM_Eveque_ShieldTutorial*1"), String::from_str("sm_eveque"));
        battle_splits.insert(String::from_str("GO_Curator_JumpTutorial*1"), String::from_str("fw_curator"));
        battle_splits.insert(String::from_str("GO_Goblu"), String::from_str("fw_goblu"));
        battle_splits.insert(String::from_str("Petank_Blue"), String::from_str("as_petank"));
        battle_splits.insert(String::from_str("AS_PotatoBagTank*1_IntroFight"), String::from_str("as_robust_sakapatate"));
        battle_splits.insert(String::from_str("AS_PotatoBagBoss"), String::from_str("as_ultimate_sakapatate"));
        battle_splits.insert(String::from_str("QUEST_BertrandBigHands*1"), String::from_str("gv_bertrand"));
        battle_splits.insert(String::from_str("QUEST_DominiqueGiantFeet*1"), String::from_str("gv_dominique"));
        battle_splits.insert(String::from_str("QUEST_MatthieuTheColossus*1"), String::from_str("gv_matthieu"));
        battle_splits.insert(String::from_str("GV_Sciel*1"), String::from_str("gv_sciel"));
        battle_splits.insert(String::from_str("EN_Francois"), String::from_str("en_francois"));
        battle_splits.insert(String::from_str("WM_Cruler_Lancelier_Demineur"), String::from_str("wm_cruler_lancelier_demineur"));
        battle_splits.insert(String::from_str("SC_LampMaster"), String::from_str("swc_lampmaster"));
        battle_splits.insert(String::from_str("FB_Chalier_GradientCounterTutorial*1"), String::from_str("fb_chalier"));
        battle_splits.insert(String::from_str("FB_DuallisteLR"), String::from_str("fb_dualliste"));
        battle_splits.insert(String::from_str("WM_Troubadour_Gault_Demineur"), String::from_str("wm_troubadour_gault_demineur"));
        battle_splits.insert(String::from_str("MS_Monoco"), String::from_str("ms_monoco"));
        battle_splits.insert(String::from_str("MM_Stalact_GradientAttackTutorial1"), String::from_str("ms_stalact"));
        battle_splits.insert(String::from_str("OL_VersoDisappears_Chevaliere2"), String::from_str("ol_chevaliers"));
        battle_splits.insert(String::from_str("OL_MirrorRenoir_FirstFight"), String::from_str("ol_renoir"));
        battle_splits.insert(String::from_str("MF_Axon_Visages"), String::from_str("visages_mask_keeper"));
        battle_splits.insert(String::from_str("SI_Glissando*1"), String::from_str("sirene_glissando"));
        battle_splits.insert(String::from_str("SI_Axon_Sirene"), String::from_str("sirene_sirene"));
        battle_splits.insert(String::from_str("SI_Axon_Sirene"), String::from_str("sirene_sirene"));
        battle_splits.insert(String::from_str("ML_PaintressIntro"), String::from_str("monolith_feetress"));
        battle_splits.insert(String::from_str("MM_MirrorRenoir"), String::from_str("monolith_renoir"));
        battle_splits.insert(String::from_str("L_Boss_Paintress_P1"), String::from_str("monolith_paintress"));
        battle_splits.insert(String::from_str("L_Boss_Curator_P1"), String::from_str("lumiere_renoir"));
        battle_splits.insert(String::from_str("FinalBossVerso"), String::from_str("lumiere_verso"));
        battle_splits.insert(String::from_str("FinalBossMaelle"), String::from_str("lumiere_maelle"));
        battle_splits.insert(String::from_str("QUEST_FrancoisDuel"), String::from_str("quest_francoisduel"));
        battle_splits.insert(String::from_str("VD_GestralBalloon*1"), String::from_str("vd_balloon_gestral"));
        battle_splits.insert(String::from_str("Quest_FeintFight"), String::from_str("vd_frappe"));
        battle_splits.insert(String::from_str("VD_Osquio*1"), String::from_str("vd_osquio"));
        battle_splits.insert(String::from_str("YF_GlaiseBoss*1"), String::from_str("yh_glaise"));
        battle_splits.insert(String::from_str("Merchant_YellowForest"), String::from_str("yh_merchant"));
        battle_splits.insert(String::from_str("WM_Sprong"), String::from_str("wm_sprong"));
        battle_splits.insert(String::from_str("WM_Serpenphare"), String::from_str("wm_serpenphare"));
        battle_splits.insert(String::from_str("MM_DanseuseAlpha*1"), String::from_str("ol_chromatic_danseuse"));
        battle_splits.insert(String::from_str("Boss_Simon*1"), String::from_str("rd_simon_p1"));
        battle_splits.insert(String::from_str("Boss_SimonPhase2*1"), String::from_str("rd_simon_p2"));
        battle_splits.insert(String::from_str("CFH_Boss_Goblu"), String::from_str("fm_goblu"));
        battle_splits.insert(String::from_str("CFH_Boss_Eveque"), String::from_str("fm_eveques"));
        battle_splits.insert(String::from_str("CFH_Gargant*1_Danseuse*2"), String::from_str("fm_gargant"));
        battle_splits.insert(String::from_str("CFH_Boss_Lampmaster"), String::from_str("fm_lampmaster"));
        battle_splits.insert(String::from_str("CFH_Boss_Dualliste"), String::from_str("fm_dualliste"));
        battle_splits.insert(String::from_str("CFH_Boss_Clea"), String::from_str("fm_clea"));
        battle_splits.insert(String::from_str("Boss_Clea_ALPHA"), String::from_str("et_clea_unleashed"));
        battle_splits.insert(String::from_str("Boss_LampmasterALPHA"), String::from_str("et_chromatic_lampmaster"));
        battle_splits.insert(String::from_str("Boss_Duolliste_P1"), String::from_str("et_duolliste"));
        battle_splits.insert(String::from_str("Boss_SimonALPHA*1"), String::from_str("et_simon_tds"));
        let mut cutscene_start_splits = NameTable::new();
        cutscene_start_splits.insert(String::from_str("LS_Title_Act1"), String::from_str("act_1_start"));
        cutscene_start_splits.insert(String::from_str("LS_Title_Act2"), String::from_str("act_2_start"));
        cutscene_start_splits.insert(String::from_str("LS_Title_Act3"), String::from_str("act_3_start"));
        Splits { done_splits, battle_splits, cutscene_start_splits }
    }

    /// Decides whether the timer splits at this sample, and marks the split done
    /// when its setting is on.
    pub fn should_split(&mut self, state: &GameState, settings: &Settings) -> (r: bool)
        requires
            old(self).wf(),
            split_readable(*state),
        ensures
            final(self).wf(),
            final(self).view().done.finite(),
            r == split_fires(old(self).view(), *state, *settings),
            final(self).view() == after_sample(old(self).view(), *state, *settings),
    {
        if state.battle.is_battle_finished() {
            let battle_name = &state.battle.battle_manager_encounter_name.pair.as_ref().unwrap().old;
            let split_key = match self.battle_splits.get(battle_name) {
                Some(v) => v.clone(),
                None => return false,
            };
            let split_enabled = settings.enabled(&split_key);
            return split_enabled && self.done_splits.insert(split_key);
        }
        if state.cutscene.has_started() {
            let cutscene_name = state.cutscene.get_name();
            let split_key = match self.cutscene_start_splits.get(cutscene_name) {
                Some(v) => v.clone(),
                None => return false,
            };
            let split_enabled = settings.enabled(&split_key);
            return split_enabled && self.done_splits.insert(split_key);
        }
        false
    }

    /// Forgets the splits done, for a new run.
    pub fn reset(&mut self) -> (r: &mut Self)
        requires
            old(self).wf(),
        ensures
            r.wf(),
            r.view().done.finite(),
            r.view() == (SplitsView { done: Set::<Seq<char>>::empty(), ..old(self).view() }),
            *final(self) == *final(r),
    {
        self.done_splits.clear();
        self
    }
}

impl View for Splits {
    type V = SplitsView;

    open spec fn view(&self) -> SplitsView {
        Splits::view(self)
    }
}

/// Once a split fired, the next sample does not fire it again, whatever the
/// game state and the settings.
pub proof fn law_split_fires_once(
    v: SplitsView,
    first: GameState,
    first_settings: Settings,
    later: GameState,
    later_settings: Settings,
)
    requires
        split_fires(v, first, first_settings),
    ensures
        split_fires(after_sample(v, first, first_settings), later, later_settings)
            ==> reached_split(after_sample(v, first, first_settings), later)
            != reached_split(v, first),
{
}

/// The splits after a run of samples without a reset, each with its settings.
pub open spec fn after_samples(v: SplitsView, samples: Seq<(GameState, Settings)>) -> SplitsView
    decreases samples.len(),
{
    if samples.len() == 0 {
        v
    } else {
        after_samples(after_sample(v, samples[0].0, samples[0].1), samples.drop_first())
    }
}

proof fn lemma_after_samples_keep(v: SplitsView, samples: Seq<(GameState, Settings)>)
    ensures
        after_samples(v, samples).battle == v.battle,
        after_samples(v, samples).cutscene == v.cutscene,
        v.done.subset_of(after_samples(v, samples).done),
    decreases samples.len(),
{
    if samples.len() > 0 {
        let next = after_sample(v, samples[0].0, samples[0].1);
        lemma_after_samples_keep(next, samples.drop_first());
    }
}

/// A split fires at most once per run: once it fired, no sample after any
/// number of others fires it again, whatever the game states and settings,
/// until a reset.
pub proof fn law_split_fires_once_per_run(
    v: SplitsView,
    first: GameState,
    first_settings: Settings,
    between: Seq<(GameState, Settings)>,
    later: GameState,
    later_settings: Settings,
)
    requires
        split_fires(v, first, first_settings),
    ensures
        ({
            let w = after_samples(after_sample(v, first, first_settings), between);
            split_fires(w, later, later_settings) ==> reached_split(w, later) != reached_split(
                v,
                first,
            )
        }),
{
    let next = after_sample(v, first, first_settings);
    lemma_after_samples_keep(next, between);
}

/// The tables never change, and the splits done only grow between resets.
pub proof fn law_done_only_grows(v: SplitsView, state: GameState, settings: Settings)
    ensures
        after_sample(v, state, settings).battle == v.battle,
        after_sample(v, state, settings).cutscene == v.cutscene,
        v.done.subset_of(after_sample(v, state, settings).done),
{
}

/// A sample marks at most one more split done.
pub proof fn law_done_grows_by_at_most_one(v: SplitsView, state: GameState, settings: Settings)
    requires
        v.done.finite(),
    ensures
        after_sample(v, state, settings).done.finite(),
        after_sample(v, state, settings).done.len() <= v.done.len() + 1,
{
}

/// A split fires only where its setting is on.
pub proof fn law_split_needs_setting(v: SplitsView, state: GameState, settings: Settings)
    ensures
        split_fires(v, state, settings) ==> settings.setting(reached_split(v, state)->0),
{
}

/// Each listed boss battle reaches its own split: the battle table of a new run
/// maps the encounter name to the key of the split setting for that battle.
pub proof fn law_battle_table_entries()
    ensures
        battle_split_table().contains_key("LU_Act1_MaelleNoTutorialCivilian"@) && battle_split_table()["LU_Act1_MaelleNoTutorialCivilian"@] == "maelle_tutorial"@,
        battle_split_table().contains_key("SM_FirstLancelierNoTuto*1"@) && battle_split_table()["SM_FirstLancelierNoTuto*1"@] == "sm_first_lancelier"@,
        battle_split_table().contains_key("SM_FirstPortier_NoTuto*1"@) && battle_split_table()["SM_FirstPortier_NoTuto*1"@] == "sm_first_portier"@,
        battle_split_table().contains_key("SM_Volester_TutoFlying*1"@) && battle_split_table()["SM_Volester_TutoFlying*1"@] == "sm_first_volesters"@,
        battle_split_table().contains_key("SM_Eveque_ShieldTutorial*1"@) && battle_split_table()["SM_Eveque_ShieldTutorial*1"@] == "sm_eveque"@,
        battle_split_table().contains_key("GO_Curator_JumpTutorial*1"@) && battle_split_table()["GO_Curator_JumpTutorial*1"@] == "fw_curator"@,
        battle_split_table().contains_key("GO_Goblu"@) && battle_split_table()["GO_Goblu"@] == "fw_goblu"@,
        battle_split_table().contains_key("Petank_Blue"@) && battle_split_table()["Petank_Blue"@] == "as_petank"@,
        battle_split_table().contains_key("AS_PotatoBagTank*1_IntroFight"@) && battle_split_table()["AS_PotatoBagTank*1_IntroFight"@] == "as_robust_sakapatate"@,
        battle_split_table().contains_key("AS_PotatoBagBoss"@) && battle_split_table()["AS_PotatoBagBoss"@] == "as_ultimate_sakapatate"@,
        battle_split_table().contains_key("QUEST_BertrandBigHands*1"@) && battle_split_table()["QUEST_BertrandBigHands*1"@] == "gv_bertrand"@,
        battle_split_table().contains_key("QUEST_DominiqueGiantFeet*1"@) && battle_split_table()["QUEST_DominiqueGiantFeet*1"@] == "gv_dominique"@,
        battle_split_table().contains_key("QUEST_MatthieuTheColossus*1"@) && battle_split_table()["QUEST_MatthieuTheColossus*1"@] == "gv_matthieu"@,
        battle_split_table().contains_key("GV_Sciel*1"@) && battle_split_table()["GV_Sciel*1"@] == "gv_sciel"@,
        battle_split_table().contains_key("EN_Francois"@) && battle_split_table()["EN_Francois"@] == "en_francois"@,
        battle_split_table().contains_key("WM_Cruler_Lancelier_Demineur"@) && battle_split_table()["WM_Cruler_Lancelier_Demineur"@] == "wm_cruler_lancelier_demineur"@,
        battle_split_table().contains_key("SC_LampMaster"@) && battle_split_table()["SC_LampMaster"@] == "swc_lampmaster"@,
        battle_split_table().contains_key("FB_Chalier_GradientCounterTutorial*1"@) && battle_split_table()["FB_Chalier_GradientCounterTutorial*1"@] == "fb_chalier"@,
        battle_split_table().contains_key("FB_DuallisteLR"@) && battle_split_table()["FB_DuallisteLR"@] == "fb_dualliste"@,
        battle_split_table().contains_key("WM_Troubadour_Gault_Demineur"@) && battle_split_table()["WM_Troubadour_Gault_Demineur"@] == "wm_troubadour_gault_demineur"@,
        battle_split_table().contains_key("MS_Monoco"@) && battle_split_table()["MS_Monoco"@] == "ms_monoco"@,
        battle_split_table().contains_key("MM_Stalact_GradientAttackTutorial1"@) && battle_split_table()["MM_Stalact_GradientAttackTutorial1"@] == "ms_stalact"@,
        battle_split_table().contains_key("OL_VersoDisappears_Chevaliere2"@) && battle_split_table()["OL_VersoDisappears_Chevaliere2"@] == "ol_chevaliers"@,
        battle_split_table().contains_key("OL_MirrorRenoir_FirstFight"@) && battle_split_table()["OL_MirrorRenoir_FirstFight"@] == "ol_renoir"@,
        battle_split_table().contains_key("MF_Axon_Visages"@) && battle_split_table()["MF_Axon_Visages"@] == "visages_mask_keeper"@,
        battle_split_table().contains_key("SI_Glissando*1"@) && battle_split_table()["SI_Glissando*1"@] == "sirene_glissando"@,
        battle_split_table().contains_key("SI_Axon_Sirene"@) && battle_split_table()["SI_Axon_Sirene"@] == "sirene_sirene"@,
        battle_split_table().contains_key("ML_PaintressIntro"@) && battle_split_table()["ML_PaintressIntro"@] == "monolith_feetress"@,
        battle_split_table().contains_key("MM_MirrorRenoir"@) && battle_split_table()["MM_MirrorRenoir"@] == "monolith_renoir"@,
        battle_split_table().contains_key("L_Boss_Paintress_P1"@) && battle_split_table()["L_Boss_Paintress_P1"@] == "monolith_paintress"@,
        battle_split_table().contains_key("L_Boss_Curator_P1"@) && battle_split_table()["L_Boss_Curator_P1"@] == "lumiere_renoir"@,
        battle_split_table().contains_key("FinalBossVerso"@) && battle_split_table()["FinalBossVerso"@] == "lumiere_verso"@,
        battle_split_table().contains_key("FinalBossMaelle"@) && battle_split_table()["FinalBossMaelle"@] == "lumiere_maelle"@,
        battle_split_table().contains_key("QUEST_FrancoisDuel"@) && battle_split_table()["QUEST_FrancoisDuel"@] == "quest_francoisduel"@,
        battle_split_table().contains_key("VD_GestralBalloon*1"@) && battle_split_table()["VD_GestralBalloon*1"@] == "vd_balloon_gestral"@,
        battle_split_table().contains_key("Quest_FeintFight"@) && battle_split_table()["Quest_FeintFight"@] == "vd_frappe"@,
        battle_split_table().contains_key("VD_Osquio*1"@) && battle_split_table()["VD_Osquio*1"@] == "vd_osquio"@,
        battle_split_table().contains_key("YF_GlaiseBoss*1"@) && battle_split_table()["YF_GlaiseBoss*1"@] == "yh_glaise"@,
        battle_split_table().contains_key("Merchant_YellowForest"@) && battle_split_table()["Merchant_YellowForest"@] == "yh_merchant"@,
        battle_split_table().contains_key("WM_Sprong"@) && battle_split_table()["WM_Sprong"@] == "wm_sprong"@,
        battle_split_table().contains_key("WM_Serpenphare"@) && battle_split_table()["WM_Serpenphare"@] == "wm_serpenphare"@,
        battle_split_table().contains_key("MM_DanseuseAlpha*1"@) && battle_split_table()["MM_DanseuseAlpha*1"@] == "ol_chromatic_danseuse"@,
        battle_split_table().contains_key("Boss_Simon*1"@) && battle_split_table()["Boss_Simon*1"@] == "rd_simon_p1"@,
        battle_split_table().contains_key("Boss_SimonPhase2*1"@) && battle_split_table()["Boss_SimonPhase2*1"@] == "rd_simon_p2"@,
        battle_split_table().contains_key("CFH_Boss_Goblu"@) && battle_split_table()["CFH_Boss_Goblu"@] == "fm_goblu"@,
        battle_split_table().contains_key("CFH_Boss_Eveque"@) && battle_split_table()["CFH_Boss_Eveque"@] == "fm_eveques"@,
        battle_split_table().contains_key("CFH_Gargant*1_Danseuse*2"@) && battle_split_table()["CFH_Gargant*1_Danseuse*2"@] == "fm_gargant"@,
        battle_split_table().contains_key("CFH_Boss_Lampmaster"@) && battle_split_table()["CFH_Boss_Lampmaster"@] == "fm_lampmaster"@,
        battle_split_table().contains_key("CFH_Boss_Dualliste"@) && battle_split_table()["CFH_Boss_Dualliste"@] == "fm_dualliste"@,
        battle_split_table().contains_key("CFH_Boss_Clea"@) && battle_split_table()["CFH_Boss_Clea"@] == "fm_clea"@,
        battle_split_table().contains_key("Boss_Clea_ALPHA"@) && battle_split_table()["Boss_Clea_ALPHA"@] == "et_clea_unleashed"@,
        battle_split_table().contains_key("Boss_LampmasterALPHA"@) && battle_split_table()["Boss_LampmasterALPHA"@] == "et_chromatic_lampmaster"@,
        battle_split_table().contains_key("Boss_Duolliste_P1"@) && battle_split_table()["Boss_Duolliste_P1"@] == "et_duolliste"@,
        battle_split_table().contains_key("Boss_SimonALPHA*1"@) && battle_split_table()["Boss_SimonALPHA*1"@] == "et_simon_tds"@,
{
    reveal_strlit("LU_Act1_MaelleNoTutorialCivilian");
    reveal_strlit("SM_FirstLancelierNoTuto*1");
    reveal_strlit("SM_FirstPortier_NoTuto*1");
    reveal_strlit("SM_Volester_TutoFlying*1");
    reveal_strlit("SM_Eveque_ShieldTutorial*1");
    reveal_strlit("GO_Curator_JumpTutorial*1");
    reveal_strlit("GO_Goblu");
    reveal_strlit("Petank_Blue");
    reveal_strlit("AS_PotatoBagTank*1_IntroFight");
    reveal_strlit("AS_PotatoBagBoss");
    reveal_strlit("QUEST_BertrandBigHands*1");
    reveal_strlit("QUEST_DominiqueGiantFeet*1");
    reveal_strlit("QUEST_MatthieuTheColossus*1");
    reveal_strlit("GV_Sciel*1");
    reveal_strlit("EN_Francois");
    reveal_strlit("WM_Cruler_Lancelier_Demineur");
    reveal_strlit("SC_LampMaster");
    reveal_strlit("FB_Chalier_GradientCounterTutorial*1");
    reveal_strlit("FB_DuallisteLR");
    reveal_strlit("WM_Troubadour_Gault_Demineur");
    reveal_strlit("MS_Monoco");
    reveal_strlit("MM_Stalact_GradientAttackTutorial1");
    reveal_strlit("OL_VersoDisappears_Chevaliere2");
    reveal_strlit("OL_MirrorRenoir_FirstFight");
    reveal_strlit("MF_Axon_Visages");
    reveal_strlit("SI_Glissando*1");
    reveal_strlit("SI_Axon_Sirene");
    reveal_strlit("ML_PaintressIntro");
    reveal_strlit("MM_MirrorRenoir");
    reveal_strlit("L_Boss_Paintress_P1");
    reveal_strlit("L_Boss_Curator_P1");
    reveal_strlit("FinalBossVerso");
    reveal_strlit("FinalBossMaelle");
    reveal_strlit("QUEST_FrancoisDuel");
    reveal_strlit("VD_GestralBalloon*1");
    reveal_strlit("Quest_FeintFight");
    reveal_strlit("VD_Osquio*1");
    reveal_strlit("YF_GlaiseBoss*1");
    reveal_strlit("Merchant_YellowForest");
    reveal_strlit("WM_Sprong");
    reveal_strlit("WM_Serpenphare");
    reveal_strlit("MM_DanseuseAlpha*1");
    reveal_strlit("Boss_Simon*1");
    reveal_strlit("Boss_SimonPhase2*1");
    reveal_strlit("CFH_Boss_Goblu");
    reveal_strlit("CFH_Boss_Eveque");
    reveal_strlit("CFH_Gargant*1_Danseuse*2");
    reveal_strlit("CFH_Boss_Lampmaster");
    reveal_strlit("CFH_Boss_Dualliste");
    reveal_strlit("CFH_Boss_Clea");
    reveal_strlit("Boss_Clea_ALPHA");
    reveal_strlit("Boss_LampmasterALPHA");
    reveal_strlit("Boss_Duolliste_P1");
    reveal_strlit("Boss_SimonALPHA*1");
    assert("LU_Act1_MaelleNoTutorialCivilian"@.len() == 32);
    assert("SM_FirstLancelierNoTuto*1"@.len() == 25);
    assert("SM_FirstPortier_NoTuto*1"@.len() == 24);
    assert("SM_Volester_TutoFlying*1"@.len() == 24);
    assert("SM_Eveque_ShieldTutorial*1"@.len() == 26);
    assert("GO_Curator_JumpTutorial*1"@.len() == 25);
    assert("GO_Goblu"@.len() == 8);
    assert("Petank_Blue"@.len() == 11);
    assert("AS_PotatoBagTank*1_IntroFight"@.len() == 29);
    assert("AS_PotatoBagBoss"@.len() == 16);
    assert("QUEST_BertrandBigHands*1"@.len() == 24);
    assert("QUEST_DominiqueGiantFeet*1"@.len() == 26);
    assert("QUEST_MatthieuTheColossus*1"@.len() == 27);
    assert("GV_Sciel*1"@.len() == 10);
    assert("EN_Francois"@.len() == 11);
    assert("WM_Cruler_Lancelier_Demineur"@.len() == 28);
    assert("SC_LampMaster"@.len() == 13);
    assert("FB_Chalier_GradientCounterTutorial*1"@.len() == 36);
    assert("FB_DuallisteLR"@.len() == 14);
    assert("WM_Troubadour_Gault_Demineur"@.len() == 28);
    assert("MS_Monoco"@.len() == 9);
    assert("MM_Stalact_GradientAttackTutorial1"@.len() == 34);
    assert("OL_VersoDisappears_Chevaliere2"@.len() == 30);
    assert("OL_MirrorRenoir_FirstFight"@.len() == 26);
    assert("MF_Axon_Visages"@.len() == 15);
    assert("SI_Glissando*1"@.len() == 14);
    assert("SI_Axon_Sirene"@.len() == 14);
    assert("ML_PaintressIntro"@.len() == 17);
    assert("MM_MirrorRenoir"@.len() == 15);
    assert("L_Boss_Paintress_P1"@.len() == 19);
    assert("L_Boss_Curator_P1"@.len() == 17);
    assert("FinalBossVerso"@.len() == 14);
    assert("FinalBossMaelle"@.len() == 15);
    assert("QUEST_FrancoisDuel"@.len() == 18);
    assert("VD_GestralBalloon*1"@.len() == 19);
    assert("Quest_FeintFight"@.len() == 16);
    assert("VD_Osquio*1"@.len() == 11);
    assert("YF_GlaiseBoss*1"@.len() == 15);
    assert("Merchant_YellowForest"@.len() == 21);
    assert("WM_Sprong"@.len() == 9);
    assert("WM_Serpenphare"@.len() == 14);
    assert("MM_DanseuseAlpha*1"@.len() == 18);
    assert("Boss_Simon*1"@.len() == 12);
    assert("Boss_SimonPhase2*1"@.len() == 18);
    assert("CFH_Boss_Goblu"@.len() == 14);
    assert("CFH_Boss_Eveque"@.len() == 15);
    assert("CFH_Gargant*1_Danseuse*2"@.len() == 24);
    assert("CFH_Boss_Lampmaster"@.len() == 19);
    assert("CFH_Boss_Dualliste"@.len() == 18);
    assert("CFH_Boss_Clea"@.len() == 13);
    assert("Boss_Clea_ALPHA"@.len() == 15);
    assert("Boss_LampmasterALPHA"@.len() == 20);
    assert("Boss_Duolliste_P1"@.len() == 17);
    assert("Boss_SimonALPHA*1"@.len() == 17);
    assert("SM_FirstLancelierNoTuto*1"@[0] != "GO_Curator_JumpTutorial*1"@[0]);
    assert("SM_FirstPortier_NoTuto*1"@[3] != "SM_Volester_TutoFlying*1"@[3]);
    assert("SM_FirstPortier_NoTuto*1"@[0] != "QUEST_BertrandBigHands*1"@[0]);
    assert("SM_FirstPortier_NoTuto*1"@[0] != "CFH_Gargant*1_Danseuse*2"@[0]);
    assert("SM_Volester_TutoFlying*1"@[0] != "QUEST_BertrandBigHands*1"@[0]);
    assert("SM_Volester_TutoFlying*1"@[0] != "CFH_Gargant*1_Danseuse*2"@[0]);
    assert("SM_Eveque_ShieldTutorial*1"@[0] != "QUEST_DominiqueGiantFeet*1"@[0]);
    assert("SM_Eveque_ShieldTutorial*1"@[0] != "OL_MirrorRenoir_FirstFight"@[0]);
    assert("Petank_Blue"@[0] != "EN_Francois"@[0]);
    assert("Petank_Blue"@[0] != "VD_Osquio*1"@[0]);
    assert("AS_PotatoBagBoss"@[0] != "Quest_FeintFight"@[0]);
    assert("QUEST_BertrandBigHands*1"@[0] != "CFH_Gargant*1_Danseuse*2"@[0]);
    assert("QUEST_DominiqueGiantFeet*1"@[0] != "OL_MirrorRenoir_FirstFight"@[0]);
    assert("EN_Francois"@[0] != "VD_Osquio*1"@[0]);
    assert("WM_Cruler_Lancelier_Demineur"@[3] != "WM_Troubadour_Gault_Demineur"@[3]);
    assert("SC_LampMaster"@[0] != "CFH_Boss_Clea"@[0]);
    assert("FB_DuallisteLR"@[0] != "SI_Glissando*1"@[0]);
    assert("FB_DuallisteLR"@[0] != "SI_Axon_Sirene"@[0]);
    assert("FB_DuallisteLR"@[1] != "FinalBossVerso"@[1]);
    assert("FB_DuallisteLR"@[0] != "WM_Serpenphare"@[0]);
    assert("FB_DuallisteLR"@[0] != "CFH_Boss_Goblu"@[0]);
    assert("MS_Monoco"@[0] != "WM_Sprong"@[0]);
    assert("MF_Axon_Visages"@[1] != "MM_MirrorRenoir"@[1]);
    assert("MF_Axon_Visages"@[0] != "FinalBossMaelle"@[0]);
    assert("MF_Axon_Visages"@[0] != "YF_GlaiseBoss*1"@[0]);
    assert("MF_Axon_Visages"@[0] != "CFH_Boss_Eveque"@[0]);
    assert("MF_Axon_Visages"@[0] != "Boss_Clea_ALPHA"@[0]);
    assert("SI_Glissando*1"@[3] != "SI_Axon_Sirene"@[3]);
    assert("SI_Glissando*1"@[0] != "FinalBossVerso"@[0]);
    assert("SI_Glissando*1"@[0] != "WM_Serpenphare"@[0]);
    assert("SI_Glissando*1"@[0] != "CFH_Boss_Goblu"@[0]);
    assert("SI_Axon_Sirene"@[0] != "FinalBossVerso"@[0]);
    assert("SI_Axon_Sirene"@[0] != "WM_Serpenphare"@[0]);
    assert("SI_Axon_Sirene"@[0] != "CFH_Boss_Goblu"@[0]);
    assert("ML_PaintressIntro"@[0] != "L_Boss_Curator_P1"@[0]);
    assert("ML_PaintressIntro"@[0] != "Boss_Duolliste_P1"@[0]);
    assert("ML_PaintressIntro"@[0] != "Boss_SimonALPHA*1"@[0]);
    assert("MM_MirrorRenoir"@[0] != "FinalBossMaelle"@[0]);
    assert("MM_MirrorRenoir"@[0] != "YF_GlaiseBoss*1"@[0]);
    assert("MM_MirrorRenoir"@[0] != "CFH_Boss_Eveque"@[0]);
    assert("MM_MirrorRenoir"@[0] != "Boss_Clea_ALPHA"@[0]);
    assert("L_Boss_Paintress_P1"@[0] != "VD_GestralBalloon*1"@[0]);
    assert("L_Boss_Paintress_P1"@[0] != "CFH_Boss_Lampmaster"@[0]);
    assert("L_Boss_Curator_P1"@[0] != "Boss_Duolliste_P1"@[0]);
    assert("L_Boss_Curator_P1"@[0] != "Boss_SimonALPHA*1"@[0]);
    assert("FinalBossVerso"@[0] != "WM_Serpenphare"@[0]);
    assert("FinalBossVerso"@[0] != "CFH_Boss_Goblu"@[0]);
    assert("FinalBossMaelle"@[0] != "YF_GlaiseBoss*1"@[0]);
    assert("FinalBossMaelle"@[0] != "CFH_Boss_Eveque"@[0]);
    assert("FinalBossMaelle"@[0] != "Boss_Clea_ALPHA"@[0]);
    assert("QUEST_FrancoisDuel"@[0] != "MM_DanseuseAlpha*1"@[0]);
    assert("QUEST_FrancoisDuel"@[0] != "Boss_SimonPhase2*1"@[0]);
    assert("QUEST_FrancoisDuel"@[0] != "CFH_Boss_Dualliste"@[0]);
    assert("VD_GestralBalloon*1"@[0] != "CFH_Boss_Lampmaster"@[0]);
    assert("YF_GlaiseBoss*1"@[0] != "CFH_Boss_Eveque"@[0]);
    assert("YF_GlaiseBoss*1"@[0] != "Boss_Clea_ALPHA"@[0]);
    assert("WM_Serpenphare"@[0] != "CFH_Boss_Goblu"@[0]);
    assert("MM_DanseuseAlpha*1"@[0] != "Boss_SimonPhase2*1"@[0]);
    assert("MM_DanseuseAlpha*1"@[0] != "CFH_Boss_Dualliste"@[0]);
    assert("Boss_SimonPhase2*1"@[0] != "CFH_Boss_Dualliste"@[0]);
    assert("CFH_Boss_Eveque"@[0] != "Boss_Clea_ALPHA"@[0]);
    assert("Boss_Duolliste_P1"@[5] != "Boss_SimonALPHA*1"@[5]);
}

/// Each act's title cinematic reaches the split of that act's start.
pub proof fn law_cutscene_table_entries()
    ensures
        cutscene_split_table().contains_key("LS_Title_Act1"@) && cutscene_split_table()["LS_Title_Act1"@] == "act_1_start"@,
        cutscene_split_table().contains_key("LS_Title_Act2"@) && cutscene_split_table()["LS_Title_Act2"@] == "act_2_start"@,
        cutscene_split_table().contains_key("LS_Title_Act3"@) && cutscene_split_table()["LS_Title_Act3"@] == "act_3_start"@,
{
    reveal_strlit("LS_Title_Act1");
    reveal_strlit("LS_Title_Act2");
    reveal_strlit("LS_Title_Act3");
    assert("LS_Title_Act1"@.len() == 13);
    assert("LS_Title_Act2"@.len() == 13);
    assert("LS_Title_Act3"@.len() == 13);
    assert("LS_Title_Act1"@[12] != "LS_Title_Act2"@[12]);
    assert("LS_Title_Act1"@[12] != "LS_Title_Act3"@[12]);
    assert("LS_Title_Act2"@[12] != "LS_Title_Act3"@[12]);
}

/// A won battle whose encounter has a split fires it when its setting is on and
/// it has not been done in this run; the split is then done.
pub proof fn law_won_battle_splits(v: SplitsView, state: GameState, settings: Settings)
    requires
        state.battle.finished(),
        v.battle.contains_key(state.battle.battle_manager_encounter_name@->0.old),
        settings.setting(v.battle[state.battle.battle_manager_encounter_name@->0.old]),
        !v.done.contains(v.battle[state.battle.battle_manager_encounter_name@->0.old]),
    ensures
        split_fires(v, state, settings),
        after_sample(v, state, settings).done == v.done.insert(
            v.battle[state.battle.battle_manager_encounter_name@->0.old],
        ),
{
}

/// A cinematic that just started, with no battle just finished, fires the split
/// of its name when that split's setting is on and it has not been done.
pub proof fn law_started_cinematic_splits(v: SplitsView, state: GameState, settings: Settings)
    requires
        !state.battle.finished(),
        state.cutscene.started(),
        v.cutscene.contains_key(state.cutscene.name().current),
        settings.setting(v.cutscene[state.cutscene.name().current]),
        !v.done.contains(v.cutscene[state.cutscene.name().current]),
    ensures
        split_fires(v, state, settings),
        after_sample(v, state, settings).done == v.done.insert(
            v.cutscene[state.cutscene.name().current],
        ),
{
}

/// A split that fires is the entry of the finished battle's encounter name, or
/// of the started cinematic's name, and its setting is on.
pub proof fn law_fired_split_comes_from_a_table(v: SplitsView, state: GameState, settings: Settings)
    requires
        split_fires(v, state, settings),
    ensures
        (state.battle.finished() && v.battle.contains_key(state.battle.battle_manager_encounter_name@->0.old)
            && reached_split(v, state) == Some(v.battle[state.battle.battle_manager_encounter_name@->0.old]))
        || (!state.battle.finished() && state.cutscene.started() && v.cutscene.contains_key(
            state.cutscene.name().current,
        ) && reached_split(v, state) == Some(v.cutscene[state.cutscene.name().current])),
        settings.setting(reached_split(v, state)->0),
        !v.done.contains(reached_split(v, state)->0),
{
}

} // verus!
