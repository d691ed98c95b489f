//! The settings that the runner shows for the auto splitter: whether it starts,
//! splits and resets the timer, and which splits are on.
use vstd::prelude::*;
use crate::text::eq_str;

verus! {

/// What each setting is set to. A setting is named by its field.
pub struct Settings {
    pub start: bool,
    pub split: bool,
    pub reset: bool,
    /// Start timer when starting NG+
    pub ng_plus: bool,
    /// Act 1
    pub act_1_start: bool,
    /// Act 2
    pub act_2_start: bool,
    /// Act 3
    pub act_3_start: bool,
    /// Maelle Fight
    pub maelle_tutorial: bool,
    /// First Lancelier
    pub sm_first_lancelier: bool,
    /// First Portier
    pub sm_first_portier: bool,
    /// First Volesters
    pub sm_first_volesters: bool,
    /// Évêque
    pub sm_eveque: bool,
    /// Curator
    pub fw_curator: bool,
    /// Goblu
    pub fw_goblu: bool,
    /// Flying Waters Exit
    pub fw_exit: bool,
    /// Robust Sakapatate
    pub as_robust_sakapatate: bool,
    /// Ultimate Sakapatate
    pub as_ultimate_sakapatate: bool,
    /// Bertrand Big Hands
    pub gv_bertrand: bool,
    /// Dominique Giant Feet
    pub gv_dominique: bool,
    /// Matthieu The Colossus
    pub gv_matthieu: bool,
    /// Sciel
    pub gv_sciel: bool,
    /// François
    pub en_francois: bool,
    /// Lampmaster
    pub swc_lampmaster: bool,
    /// Chalier
    pub fb_chalier: bool,
    /// Dualliste
    pub fb_dualliste: bool,
    /// Forgotten Battlefield Exit
    pub fb_exit: bool,
    /// Monoco
    pub ms_monoco: bool,
    /// Stalact
    pub ms_stalact: bool,
    /// Ceramic & Steel Chevalière
    pub ol_chevaliers: bool,
    /// Renoir
    pub ol_renoir: bool,
    /// Mask Keeper
    pub visages_mask_keeper: bool,
    /// Glissando
    pub sirene_glissando: bool,
    /// Sirène
    pub sirene_sirene: bool,
    /// Fake Paintress
    pub monolith_feetress: bool,
    /// Train Cutscene
    pub monolith_train_cs: bool,
    /// Renoir
    pub monolith_renoir: bool,
    /// The Paintress
    pub monolith_paintress: bool,
    /// Enter Lumiere
    pub lumiere_start_cs: bool,
    /// Renoir
    pub lumiere_renoir: bool,
    /// Verso
    pub lumiere_verso: bool,
    /// Maelle
    pub lumiere_maelle: bool,
    /// Francois (Esquie Relationship LV6)
    pub quest_francoisduel: bool,
    /// Cruler / Lancelier / Demineur
    pub wm_cruler_lancelier_demineur: bool,
    /// Troubadour / Gault / Demineur
    pub wm_troubadour_gault_demineur: bool,
    /// Sprong
    pub wm_sprong: bool,
    /// Serpenphare
    pub wm_serpenphare: bool,
    /// Lancelier x2
    pub sm_lancelier_x2: bool,
    /// Abbest / Volester x2
    pub sm_abbest_volester_x2: bool,
    /// Demineur x3
    pub fw_demineur_x3: bool,
    /// Noco
    pub fw_noco: bool,
    /// Bruler / Luster / Demineur
    pub fw_bruler_luster_demineur: bool,
    /// Petank
    pub as_petank: bool,
    /// Chromatic Danseuse
    pub ol_chromatic_danseuse: bool,
    /// Abberation
    pub lumiere_abberation: bool,
    /// Glaise
    pub yh_glaise: bool,
    /// Merchant
    pub yh_merchant: bool,
    /// Balloon Gestral (Trigger Happy)
    pub vd_balloon_gestral: bool,
    /// Monsieur Frappe
    pub vd_frappe: bool,
    /// Osquio
    pub vd_osquio: bool,
    /// Dualliste
    pub fm_dualliste: bool,
    /// Goblu
    pub fm_goblu: bool,
    /// Gargant
    pub fm_gargant: bool,
    /// Lampmaster
    pub fm_lampmaster: bool,
    /// Évêques
    pub fm_eveques: bool,
    /// Clea
    pub fm_clea: bool,
    /// Simon P1
    pub rd_simon_p1: bool,
    /// Simon P2
    pub rd_simon_p2: bool,
    /// Chromatic Lampmaster
    pub et_chromatic_lampmaster: bool,
    /// Clea Unleashed
    pub et_clea_unleashed: bool,
    /// Duolliste
    pub et_duolliste: bool,
    /// Simon The Divergent Star
    pub et_simon_tds: bool,
}

impl Settings {
    /// The value of the setting named `key`; false for a name that is no setting.
    pub open spec fn setting(&self, key: Seq<char>) -> bool {
        if key == "start"@ {
            self.start
        } else if key == "split"@ {
            self.split
        } else if key == "reset"@ {
            self.reset
        } else if key == "ng_plus"@ {
            self.ng_plus
        } else if key == "act_1_start"@ {
            self.act_1_start
        } else if key == "act_2_start"@ {
            self.act_2_start
        } else if key == "act_3_start"@ {
            self.act_3_start
        } else if key == "maelle_tutorial"@ {
            self.maelle_tutorial
        } else if key == "sm_first_lancelier"@ {
            self.sm_first_lancelier
        } else if key == "sm_first_portier"@ {
            self.sm_first_portier
        } else if key == "sm_first_volesters"@ {
            self.sm_first_volesters
        } else if key == "sm_eveque"@ {
            self.sm_eveque
        } else if key == "fw_curator"@ {
            self.fw_curator
        } else if key == "fw_goblu"@ {
            self.fw_goblu
        } else if key == "fw_exit"@ {
            self.fw_exit
        } else if key == "as_robust_sakapatate"@ {
            self.as_robust_sakapatate
        } else if key == "as_ultimate_sakapatate"@ {
            self.as_ultimate_sakapatate
        } else if key == "gv_bertrand"@ {
            self.gv_bertrand
        } else if key == "gv_dominique"@ {
            self.gv_dominique
        } else if key == "gv_matthieu"@ {
            self.gv_matthieu
        } else if key == "gv_sciel"@ {
            self.gv_sciel
        } else if key == "en_francois"@ {
            self.en_francois
        } else if key == "swc_lampmaster"@ {
            self.swc_lampmaster
        } else if key == "fb_chalier"@ {
            self.fb_chalier
        } else if key == "fb_dualliste"@ {
            self.fb_dualliste
        } else if key == "fb_exit"@ {
            self.fb_exit
        } else if key == "ms_monoco"@ {
            self.ms_monoco
        } else if key == "ms_stalact"@ {
            self.ms_stalact
        } else if key == "ol_chevaliers"@ {
            self.ol_chevaliers
        } else if key == "ol_renoir"@ {
            self.ol_renoir
        } else if key == "visages_mask_keeper"@ {
            self.visages_mask_keeper
        } else if key == "sirene_glissando"@ {
            self.sirene_glissando
        } else if key == "sirene_sirene"@ {
            self.sirene_sirene
        } else if key == "monolith_feetress"@ {
            self.monolith_feetress
        } else if key == "monolith_train_cs"@ {
            self.monolith_train_cs
        } else if key == "monolith_renoir"@ {
            self.monolith_renoir
        } else if key == "monolith_paintress"@ {
            self.monolith_paintress
        } else if key == "lumiere_start_cs"@ {
            self.lumiere_start_cs
        } else if key == "lumiere_renoir"@ {
            self.lumiere_renoir
        } else if key == "lumiere_verso"@ {
            self.lumiere_verso
        } else if key == "lumiere_maelle"@ {
            self.lumiere_maelle
        } else if key == "quest_francoisduel"@ {
            self.quest_francoisduel
        } else if key == "wm_cruler_lancelier_demineur"@ {
            self.wm_cruler_lancelier_demineur
        } else if key == "wm_troubadour_gault_demineur"@ {
            self.wm_troubadour_gault_demineur
        } else if key == "wm_sprong"@ {
            self.wm_sprong
        } else if key == "wm_serpenphare"@ {
            self.wm_serpenphare
        } else if key == "sm_lancelier_x2"@ {
            self.sm_lancelier_x2
        } else if key == "sm_abbest_volester_x2"@ {
            self.sm_abbest_volester_x2
        } else if key == "fw_demineur_x3"@ {
            self.fw_demineur_x3
        } else if key == "fw_noco"@ {
            self.fw_noco
        } else if key == "fw_bruler_luster_demineur"@ {
            self.fw_bruler_luster_demineur
        } else if key == "as_petank"@ {
            self.as_petank
        } else if key == "ol_chromatic_danseuse"@ {
            self.ol_chromatic_danseuse
        } else if key == "lumiere_abberation"@ {
            self.lumiere_abberation
        } else if key == "yh_glaise"@ {
            self.yh_glaise
        } else if key == "yh_merchant"@ {
            self.yh_merchant
        } else if key == "vd_balloon_gestral"@ {
            self.vd_balloon_gestral
        } else if key == "vd_frappe"@ {
            self.vd_frappe
        } else if key == "vd_osquio"@ {
            self.vd_osquio
        } else if key == "fm_dualliste"@ {
            self.fm_dualliste
        } else if key == "fm_goblu"@ {
            self.fm_goblu
        } else if key == "fm_gargant"@ {
            self.fm_gargant
        } else if key == "fm_lampmaster"@ {
            self.fm_lampmaster
        } else if key == "fm_eveques"@ {
            self.fm_eveques
        } else if key == "fm_clea"@ {
            self.fm_clea
        } else if key == "rd_simon_p1"@ {
            self.rd_simon_p1
        } else if key == "rd_simon_p2"@ {
            self.rd_simon_p2
        } else if key == "et_chromatic_lampmaster"@ {
            self.et_chromatic_lampmaster
        } else if key == "et_clea_unleashed"@ {
            self.et_clea_unleashed
        } else if key == "et_duolliste"@ {
            self.et_duolliste
        } else if key == "et_simon_tds"@ {
            self.et_simon_tds
        } else {
            false
        }
    }

    /// The value of the setting named `key`, as the settings map of the runner
    /// gives it; false for a name that is no setting.
    pub fn enabled(&self, key: &String) -> (r: bool)
        ensures
            r == self.setting(key@),
    {
        if eq_str(key, "start") {
            self.start
        } else if eq_str(key, "split") {
            self.split
        } else if eq_str(key, "reset") {
            self.reset
        } else if eq_str(key, "ng_plus") {
            self.ng_plus
        } else if eq_str(key, "act_1_start") {
            self.act_1_start
        } else if eq_str(key, "act_2_start") {
            self.act_2_start
        } else if eq_str(key, "act_3_start") {
            self.act_3_start
        } else if eq_str(key, "maelle_tutorial") {
            self.maelle_tutorial
        } else if eq_str(key, "sm_first_lancelier") {
            self.sm_first_lancelier
        } else if eq_str(key, "sm_first_portier") {
            self.sm_first_portier
        } else if eq_str(key, "sm_first_volesters") {
            self.sm_first_volesters
        } else if eq_str(key, "sm_eveque") {
            self.sm_eveque
        } else if eq_str(key, "fw_curator") {
            self.fw_curator
        } else if eq_str(key, "fw_goblu") {
            self.fw_goblu
        } else if eq_str(key, "fw_exit") {
            self.fw_exit
        } else if eq_str(key, "as_robust_sakapatate") {
            self.as_robust_sakapatate
        } else if eq_str(key, "as_ultimate_sakapatate") {
            self.as_ultimate_sakapatate
        } else if eq_str(key, "gv_bertrand") {
            self.gv_bertrand
        } else if eq_str(key, "gv_dominique") {
            self.gv_dominique
        } else if eq_str(key, "gv_matthieu") {
            self.gv_matthieu
        } else if eq_str(key, "gv_sciel") {
            self.gv_sciel
        } else if eq_str(key, "en_francois") {
            self.en_francois
        } else if eq_str(key, "swc_lampmaster") {
            self.swc_lampmaster
        } else if eq_str(key, "fb_chalier") {
            self.fb_chalier
        } else if eq_str(key, "fb_dualliste") {
            self.fb_dualliste
        } else if eq_str(key, "fb_exit") {
            self.fb_exit
        } else if eq_str(key, "ms_monoco") {
            self.ms_monoco
        } else if eq_str(key, "ms_stalact") {
            self.ms_stalact
        } else if eq_str(key, "ol_chevaliers") {
            self.ol_chevaliers
        } else if eq_str(key, "ol_renoir") {
            self.ol_renoir
        } else if eq_str(key, "visages_mask_keeper") {
            self.visages_mask_keeper
        } else if eq_str(key, "sirene_glissando") {
            self.sirene_glissando
        } else if eq_str(key, "sirene_sirene") {
            self.sirene_sirene
        } else if eq_str(key, "monolith_feetress") {
            self.monolith_feetress
        } else if eq_str(key, "monolith_train_cs") {
            self.monolith_train_cs
        } else if eq_str(key, "monolith_renoir") {
            self.monolith_renoir
        } else if eq_str(key, "monolith_paintress") {
            self.monolith_paintress
        } else if eq_str(key, "lumiere_start_cs") {
            self.lumiere_start_cs
        } else if eq_str(key, "lumiere_renoir") {
            self.lumiere_renoir
        } else if eq_str(key, "lumiere_verso") {
            self.lumiere_verso
        } else if eq_str(key, "lumiere_maelle") {
            self.lumiere_maelle
        } else if eq_str(key, "quest_francoisduel") {
            self.quest_francoisduel
        } else if eq_str(key, "wm_cruler_lancelier_demineur") {
            self.wm_cruler_lancelier_demineur
        } else if eq_str(key, "wm_troubadour_gault_demineur") {
            self.wm_troubadour_gault_demineur
        } else if eq_str(key, "wm_sprong") {
            self.wm_sprong
        } else if eq_str(key, "wm_serpenphare") {
            self.wm_serpenphare
        } else if eq_str(key, "sm_lancelier_x2") {
            self.sm_lancelier_x2
        } else if eq_str(key, "sm_abbest_volester_x2") {
            self.sm_abbest_volester_x2
        } else if eq_str(key, "fw_demineur_x3") {
            self.fw_demineur_x3
        } else if eq_str(key, "fw_noco") {
            self.fw_noco
        } else if eq_str(key, "fw_bruler_luster_demineur") {
            self.fw_bruler_luster_demineur
        } else if eq_str(key, "as_petank") {
            self.as_petank
        } else if eq_str(key, "ol_chromatic_danseuse") {
            self.ol_chromatic_danseuse
        } else if eq_str(key, "lumiere_abberation") {
            self.lumiere_abberation
        } else if eq_str(key, "yh_glaise") {
            self.yh_glaise
        } else if eq_str(key, "yh_merchant") {
            self.yh_merchant
        } else if eq_str(key, "vd_balloon_gestral") {
            self.vd_balloon_gestral
        } else if eq_str(key, "vd_frappe") {
            self.vd_frappe
        } else if eq_str(key, "vd_osquio") {
            self.vd_osquio
        } else if eq_str(key, "fm_dualliste") {
            self.fm_dualliste
        } else if eq_str(key, "fm_goblu") {
            self.fm_goblu
        } else if eq_str(key, "fm_gargant") {
            self.fm_gargant
        } else if eq_str(key, "fm_lampmaster") {
            self.fm_lampmaster
        } else if eq_str(key, "fm_eveques") {
            self.fm_eveques
        } else if eq_str(key, "fm_clea") {
            self.fm_clea
        } else if eq_str(key, "rd_simon_p1") {
            self.rd_simon_p1
        } else if eq_str(key, "rd_simon_p2") {
            self.rd_simon_p2
        } else if eq_str(key, "et_chromatic_lampmaster") {
            self.et_chromatic_lampmaster
        } else if eq_str(key, "et_clea_unleashed") {
            self.et_clea_unleashed
        } else if eq_str(key, "et_duolliste") {
            self.et_duolliste
        } else if eq_str(key, "et_simon_tds") {
            self.et_simon_tds
        } else {
            false
        }
    }
}

impl Default for Settings {
    /// The defaults that the runner shows: start and split on, everything else off.
    fn default() -> (s: Settings)
        ensures
            s.start == true,
            s.split == true,
            s.reset == false,
            s.ng_plus == false,
            s.act_1_start == false,
            s.act_2_start == false,
            s.act_3_start == false,
            s.maelle_tutorial == false,
            s.sm_first_lancelier == false,
            s.sm_first_portier == false,
            s.sm_first_volesters == false,
            s.sm_eveque == false,
            s.fw_curator == false,
            s.fw_goblu == false,
            s.fw_exit == false,
            s.as_robust_sakapatate == false,
            s.as_ultimate_sakapatate == false,
            s.gv_bertrand == false,
            s.gv_dominique == false,
            s.gv_matthieu == false,
            s.gv_sciel == false,
            s.en_francois == false,
            s.swc_lampmaster == false,
            s.fb_chalier == false,
            s.fb_dualliste == false,
            s.fb_exit == false,
            s.ms_monoco == false,
            s.ms_stalact == false,
            s.ol_chevaliers == false,
            s.ol_renoir == false,
            s.visages_mask_keeper == false,
            s.sirene_glissando == false,
            s.sirene_sirene == false,
            s.monolith_feetress == false,
            s.monolith_train_cs == false,
            s.monolith_renoir == false,
            s.monolith_paintress == false,
            s.lumiere_start_cs == false,
            s.lumiere_renoir == false,
            s.lumiere_verso == false,
            s.lumiere_maelle == false,
            s.quest_francoisduel == false,
            s.wm_cruler_lancelier_demineur == false,
            s.wm_troubadour_gault_demineur == false,
            s.wm_sprong == false,
            s.wm_serpenphare == false,
            s.sm_lancelier_x2 == false,
            s.sm_abbest_volester_x2 == false,
            s.fw_demineur_x3 == false,
            s.fw_noco == false,
            s.fw_bruler_luster_demineur == false,
            s.as_petank == false,
            s.ol_chromatic_danseuse == false,
            s.lumiere_abberation == false,
            s.yh_glaise == false,
            s.yh_merchant == false,
            s.vd_balloon_gestral == false,
            s.vd_frappe == false,
            s.vd_osquio == false,
            s.fm_dualliste == false,
            s.fm_goblu == false,
            s.fm_gargant == false,
            s.fm_lampmaster == false,
            s.fm_eveques == false,
            s.fm_clea == false,
            s.rd_simon_p1 == false,
            s.rd_simon_p2 == false,
            s.et_chromatic_lampmaster == false,
            s.et_clea_unleashed == false,
            s.et_duolliste == false,
            s.et_simon_tds == false,
    {
        Settings {
            start: true,
            split: true,
            reset: false,
            ng_plus: false,
            act_1_start: false,
            act_2_start: false,
            act_3_start: false,
            maelle_tutorial: false,
            sm_first_lancelier: false,
            sm_first_portier: false,
            sm_first_volesters: false,
            sm_eveque: false,
            fw_curator: false,
            fw_goblu: false,
            fw_exit: false,
            as_robust_sakapatate: false,
            as_ultimate_sakapatate: false,
            gv_bertrand: false,
            gv_dominique: false,
            gv_matthieu: false,
            gv_sciel: false,
            en_francois: false,
            swc_lampmaster: false,
            fb_chalier: false,
            fb_dualliste: false,
            fb_exit: false,
            ms_monoco: false,
            ms_stalact: false,
            ol_chevaliers: false,
            ol_renoir: false,
            visages_mask_keeper: false,
            sirene_glissando: false,
            sirene_sirene: false,
            monolith_feetress: false,
            monolith_train_cs: false,
            monolith_renoir: false,
            monolith_paintress: false,
            lumiere_start_cs: false,
            lumiere_renoir: false,
            lumiere_verso: false,
            lumiere_maelle: false,
            quest_francoisduel: false,
            wm_cruler_lancelier_demineur: false,
            wm_troubadour_gault_demineur: false,
            wm_sprong: false,
            wm_serpenphare: false,
            sm_lancelier_x2: false,
            sm_abbest_volester_x2: false,
            fw_demineur_x3: false,
            fw_noco: false,
            fw_bruler_luster_demineur: false,
            as_petank: false,
            ol_chromatic_danseuse: false,
            lumiere_abberation: false,
            yh_glaise: false,
            yh_merchant: false,
            vd_balloon_gestral: false,
            vd_frappe: false,
            vd_osquio: false,
            fm_dualliste: false,
            fm_goblu: false,
            fm_gargant: false,
            fm_lampmaster: false,
            fm_eveques: false,
            fm_clea: false,
            rd_simon_p1: false,
            rd_simon_p2: false,
            et_chromatic_lampmaster: false,
            et_clea_unleashed: false,
            et_duolliste: false,
            et_simon_tds: false,
        }
    }
}

/// Each setting is read by its own name: looking up the name of a field gives
/// that field's value, for every field.
pub proof fn law_setting_reads_its_field(s: Settings)
    ensures
        s.setting("start"@) == s.start,
        s.setting("split"@) == s.split,
        s.setting("reset"@) == s.reset,
        s.setting("ng_plus"@) == s.ng_plus,
        s.setting("act_1_start"@) == s.act_1_start,
        s.setting("act_2_start"@) == s.act_2_start,
        s.setting("act_3_start"@) == s.act_3_start,
        s.setting("maelle_tutorial"@) == s.maelle_tutorial,
        s.setting("sm_first_lancelier"@) == s.sm_first_lancelier,
        s.setting("sm_first_portier"@) == s.sm_first_portier,
        s.setting("sm_first_volesters"@) == s.sm_first_volesters,
        s.setting("sm_eveque"@) == s.sm_eveque,
        s.setting("fw_curator"@) == s.fw_curator,
        s.setting("fw_goblu"@) == s.fw_goblu,
        s.setting("fw_exit"@) == s.fw_exit,
        s.setting("as_robust_sakapatate"@) == s.as_robust_sakapatate,
        s.setting("as_ultimate_sakapatate"@) == s.as_ultimate_sakapatate,
        s.setting("gv_bertrand"@) == s.gv_bertrand,
        s.setting("gv_dominique"@) == s.gv_dominique,
        s.setting("gv_matthieu"@) == s.gv_matthieu,
        s.setting("gv_sciel"@) == s.gv_sciel,
        s.setting("en_francois"@) == s.en_francois,
        s.setting("swc_lampmaster"@) == s.swc_lampmaster,
        s.setting("fb_chalier"@) == s.fb_chalier,
        s.setting("fb_dualliste"@) == s.fb_dualliste,
        s.setting("fb_exit"@) == s.fb_exit,
        s.setting("ms_monoco"@) == s.ms_monoco,
        s.setting("ms_stalact"@) == s.ms_stalact,
        s.setting("ol_chevaliers"@) == s.ol_chevaliers,
        s.setting("ol_renoir"@) == s.ol_renoir,
        s.setting("visages_mask_keeper"@) == s.visages_mask_keeper,
        s.setting("sirene_glissando"@) == s.sirene_glissando,
        s.setting("sirene_sirene"@) == s.sirene_sirene,
        s.setting("monolith_feetress"@) == s.monolith_feetress,
        s.setting("monolith_train_cs"@) == s.monolith_train_cs,
        s.setting("monolith_renoir"@) == s.monolith_renoir,
        s.setting("monolith_paintress"@) == s.monolith_paintress,
        s.setting("lumiere_start_cs"@) == s.lumiere_start_cs,
        s.setting("lumiere_renoir"@) == s.lumiere_renoir,
        s.setting("lumiere_verso"@) == s.lumiere_verso,
        s.setting("lumiere_maelle"@) == s.lumiere_maelle,
        s.setting("quest_francoisduel"@) == s.quest_francoisduel,
        s.setting("wm_cruler_lancelier_demineur"@) == s.wm_cruler_lancelier_demineur,
        s.setting("wm_troubadour_gault_demineur"@) == s.wm_troubadour_gault_demineur,
        s.setting("wm_sprong"@) == s.wm_sprong,
        s.setting("wm_serpenphare"@) == s.wm_serpenphare,
        s.setting("sm_lancelier_x2"@) == s.sm_lancelier_x2,
        s.setting("sm_abbest_volester_x2"@) == s.sm_abbest_volester_x2,
        s.setting("fw_demineur_x3"@) == s.fw_demineur_x3,
        s.setting("fw_noco"@) == s.fw_noco,
        s.setting("fw_bruler_luster_demineur"@) == s.fw_bruler_luster_demineur,
        s.setting("as_petank"@) == s.as_petank,
        s.setting("ol_chromatic_danseuse"@) == s.ol_chromatic_danseuse,
        s.setting("lumiere_abberation"@) == s.lumiere_abberation,
        s.setting("yh_glaise"@) == s.yh_glaise,
        s.setting("yh_merchant"@) == s.yh_merchant,
        s.setting("vd_balloon_gestral"@) == s.vd_balloon_gestral,
        s.setting("vd_frappe"@) == s.vd_frappe,
        s.setting("vd_osquio"@) == s.vd_osquio,
        s.setting("fm_dualliste"@) == s.fm_dualliste,
        s.setting("fm_goblu"@) == s.fm_goblu,
        s.setting("fm_gargant"@) == s.fm_gargant,
        s.setting("fm_lampmaster"@) == s.fm_lampmaster,
        s.setting("fm_eveques"@) == s.fm_eveques,
        s.setting("fm_clea"@) == s.fm_clea,
        s.setting("rd_simon_p1"@) == s.rd_simon_p1,
        s.setting("rd_simon_p2"@) == s.rd_simon_p2,
        s.setting("et_chromatic_lampmaster"@) == s.et_chromatic_lampmaster,
        s.setting("et_clea_unleashed"@) == s.et_clea_unleashed,
        s.setting("et_duolliste"@) == s.et_duolliste,
        s.setting("et_simon_tds"@) == s.et_simon_tds,
{
    reveal_strlit("start");
    reveal_strlit("split");
    reveal_strlit("reset");
    reveal_strlit("ng_plus");
    reveal_strlit("act_1_start");
    reveal_strlit("act_2_start");
    reveal_strlit("act_3_start");
    reveal_strlit("maelle_tutorial");
    reveal_strlit("sm_first_lancelier");
    reveal_strlit("sm_first_portier");
    reveal_strlit("sm_first_volesters");
    reveal_strlit("sm_eveque");
    reveal_strlit("fw_curator");
    reveal_strlit("fw_goblu");
    reveal_strlit("fw_exit");
    reveal_strlit("as_robust_sakapatate");
    reveal_strlit("as_ultimate_sakapatate");
    reveal_strlit("gv_bertrand");
    reveal_strlit("gv_dominique");
    reveal_strlit("gv_matthieu");
    reveal_strlit("gv_sciel");
    reveal_strlit("en_francois");
    reveal_strlit("swc_lampmaster");
    reveal_strlit("fb_chalier");
    reveal_strlit("fb_dualliste");
    reveal_strlit("fb_exit");
    reveal_strlit("ms_monoco");
    reveal_strlit("ms_stalact");
    reveal_strlit("ol_chevaliers");
    reveal_strlit("ol_renoir");
    reveal_strlit("visages_mask_keeper");
    reveal_strlit("sirene_glissando");
    reveal_strlit("sirene_sirene");
    reveal_strlit("monolith_feetress");
    reveal_strlit("monolith_train_cs");
    reveal_strlit("monolith_renoir");
    reveal_strlit("monolith_paintress");
    reveal_strlit("lumiere_start_cs");
    reveal_strlit("lumiere_renoir");
    reveal_strlit("lumiere_verso");
    reveal_strlit("lumiere_maelle");
    reveal_strlit("quest_francoisduel");
    reveal_strlit("wm_cruler_lancelier_demineur");
    reveal_strlit("wm_troubadour_gault_demineur");
    reveal_strlit("wm_sprong");
    reveal_strlit("wm_serpenphare");
    reveal_strlit("sm_lancelier_x2");
    reveal_strlit("sm_abbest_volester_x2");
    reveal_strlit("fw_demineur_x3");
    reveal_strlit("fw_noco");
    reveal_strlit("fw_bruler_luster_demineur");
    reveal_strlit("as_petank");
    reveal_strlit("ol_chromatic_danseuse");
    reveal_strlit("lumiere_abberation");
    reveal_strlit("yh_glaise");
    reveal_strlit("yh_merchant");
    reveal_strlit("vd_balloon_gestral");
    reveal_strlit("vd_frappe");
    reveal_strlit("vd_osquio");
    reveal_strlit("fm_dualliste");
    reveal_strlit("fm_goblu");
    reveal_strlit("fm_gargant");
    reveal_strlit("fm_lampmaster");
    reveal_strlit("fm_eveques");
    reveal_strlit("fm_clea");
    reveal_strlit("rd_simon_p1");
    reveal_strlit("rd_simon_p2");
    reveal_strlit("et_chromatic_lampmaster");
    reveal_strlit("et_clea_unleashed");
    reveal_strlit("et_duolliste");
    reveal_strlit("et_simon_tds");
    assert("start"@.len() == 5);
    assert("split"@.len() == 5);
    assert("reset"@.len() == 5);
    assert("ng_plus"@.len() == 7);
    assert("act_1_start"@.len() == 11);
    assert("act_2_start"@.len() == 11);
    assert("act_3_start"@.len() == 11);
    assert("maelle_tutorial"@.len() == 15);
    assert("sm_first_lancelier"@.len() == 18);
    assert("sm_first_portier"@.len() == 16);
    assert("sm_first_volesters"@.len() == 18);
    assert("sm_eveque"@.len() == 9);
    assert("fw_curator"@.len() == 10);
    assert("fw_goblu"@.len() == 8);
    assert("fw_exit"@.len() == 7);
    assert("as_robust_sakapatate"@.len() == 20);
    assert("as_ultimate_sakapatate"@.len() == 22);
    assert("gv_bertrand"@.len() == 11);
    assert("gv_dominique"@.len() == 12);
    assert("gv_matthieu"@.len() == 11);
    assert("gv_sciel"@.len() == 8);
    assert("en_francois"@.len() == 11);
    assert("swc_lampmaster"@.len() == 14);
    assert("fb_chalier"@.len() == 10);
    assert("fb_dualliste"@.len() == 12);
    assert("fb_exit"@.len() == 7);
    assert("ms_monoco"@.len() == 9);
    assert("ms_stalact"@.len() == 10);
    assert("ol_chevaliers"@.len() == 13);
    assert("ol_renoir"@.len() == 9);
    assert("visages_mask_keeper"@.len() == 19);
    assert("sirene_glissando"@.len() == 16);
    assert("sirene_sirene"@.len() == 13);
    assert("monolith_feetress"@.len() == 17);
    assert("monolith_train_cs"@.len() == 17);
    assert("monolith_renoir"@.len() == 15);
    assert("monolith_paintress"@.len() == 18);
    assert("lumiere_start_cs"@.len() == 16);
    assert("lumiere_renoir"@.len() == 14);
    assert("lumiere_verso"@.len() == 13);
    assert("lumiere_maelle"@.len() == 14);
    assert("quest_francoisduel"@.len() == 18);
    assert("wm_cruler_lancelier_demineur"@.len() == 28);
    assert("wm_troubadour_gault_demineur"@.len() == 28);
    assert("wm_sprong"@.len() == 9);
    assert("wm_serpenphare"@.len() == 14);
    assert("sm_lancelier_x2"@.len() == 15);
    assert("sm_abbest_volester_x2"@.len() == 21);
    assert("fw_demineur_x3"@.len() == 14);
    assert("fw_noco"@.len() == 7);
    assert("fw_bruler_luster_demineur"@.len() == 25);
    assert("as_petank"@.len() == 9);
    assert("ol_chromatic_danseuse"@.len() == 21);
    assert("lumiere_abberation"@.len() == 18);
    assert("yh_glaise"@.len() == 9);
    assert("yh_merchant"@.len() == 11);
    assert("vd_balloon_gestral"@.len() == 18);
    assert("vd_frappe"@.len() == 9);
    assert("vd_osquio"@.len() == 9);
    assert("fm_dualliste"@.len() == 12);
    assert("fm_goblu"@.len() == 8);
    assert("fm_gargant"@.len() == 10);
    assert("fm_lampmaster"@.len() == 13);
    assert("fm_eveques"@.len() == 10);
    assert("fm_clea"@.len() == 7);
    assert("rd_simon_p1"@.len() == 11);
    assert("rd_simon_p2"@.len() == 11);
    assert("et_chromatic_lampmaster"@.len() == 23);
    assert("et_clea_unleashed"@.len() == 17);
    assert("et_duolliste"@.len() == 12);
    assert("et_simon_tds"@.len() == 12);
    assert("start"@[1] != "split"@[1]);
    assert("start"@[0] != "reset"@[0]);
    assert("split"@[0] != "reset"@[0]);
    assert("ng_plus"@[0] != "fw_exit"@[0]);
    assert("ng_plus"@[0] != "fb_exit"@[0]);
    assert("ng_plus"@[0] != "fw_noco"@[0]);
    assert("ng_plus"@[0] != "fm_clea"@[0]);
    assert("act_1_start"@[4] != "act_2_start"@[4]);
    assert("act_1_start"@[4] != "act_3_start"@[4]);
    assert("act_1_start"@[0] != "gv_bertrand"@[0]);
    assert("act_1_start"@[0] != "gv_matthieu"@[0]);
    assert("act_1_start"@[0] != "en_francois"@[0]);
    assert("act_1_start"@[0] != "yh_merchant"@[0]);
    assert("act_1_start"@[0] != "rd_simon_p1"@[0]);
    assert("act_1_start"@[0] != "rd_simon_p2"@[0]);
    assert("act_2_start"@[4] != "act_3_start"@[4]);
    assert("act_2_start"@[0] != "gv_bertrand"@[0]);
    assert("act_2_start"@[0] != "gv_matthieu"@[0]);
    assert("act_2_start"@[0] != "en_francois"@[0]);
    assert("act_2_start"@[0] != "yh_merchant"@[0]);
    assert("act_2_start"@[0] != "rd_simon_p1"@[0]);
    assert("act_2_start"@[0] != "rd_simon_p2"@[0]);
    assert("act_3_start"@[0] != "gv_bertrand"@[0]);
    assert("act_3_start"@[0] != "gv_matthieu"@[0]);
    assert("act_3_start"@[0] != "en_francois"@[0]);
    assert("act_3_start"@[0] != "yh_merchant"@[0]);
    assert("act_3_start"@[0] != "rd_simon_p1"@[0]);
    assert("act_3_start"@[0] != "rd_simon_p2"@[0]);
    assert("maelle_tutorial"@[1] != "monolith_renoir"@[1]);
    assert("maelle_tutorial"@[0] != "sm_lancelier_x2"@[0]);
    assert("sm_first_lancelier"@[9] != "sm_first_volesters"@[9]);
    assert("sm_first_lancelier"@[0] != "monolith_paintress"@[0]);
    assert("sm_first_lancelier"@[0] != "quest_francoisduel"@[0]);
    assert("sm_first_lancelier"@[0] != "lumiere_abberation"@[0]);
    assert("sm_first_lancelier"@[0] != "vd_balloon_gestral"@[0]);
    assert("sm_first_portier"@[1] != "sirene_glissando"@[1]);
    assert("sm_first_portier"@[0] != "lumiere_start_cs"@[0]);
    assert("sm_first_volesters"@[0] != "monolith_paintress"@[0]);
    assert("sm_first_volesters"@[0] != "quest_francoisduel"@[0]);
    assert("sm_first_volesters"@[0] != "lumiere_abberation"@[0]);
    assert("sm_first_volesters"@[0] != "vd_balloon_gestral"@[0]);
    assert("sm_eveque"@[0] != "ms_monoco"@[0]);
    assert("sm_eveque"@[0] != "ol_renoir"@[0]);
    assert("sm_eveque"@[0] != "wm_sprong"@[0]);
    assert("sm_eveque"@[0] != "as_petank"@[0]);
    assert("sm_eveque"@[0] != "yh_glaise"@[0]);
    assert("sm_eveque"@[0] != "vd_frappe"@[0]);
    assert("sm_eveque"@[0] != "vd_osquio"@[0]);
    assert("fw_curator"@[1] != "fb_chalier"@[1]);
    assert("fw_curator"@[0] != "ms_stalact"@[0]);
    assert("fw_curator"@[1] != "fm_gargant"@[1]);
    assert("fw_curator"@[1] != "fm_eveques"@[1]);
    assert("fw_goblu"@[0] != "gv_sciel"@[0]);
    assert("fw_goblu"@[1] != "fm_goblu"@[1]);
    assert("fw_exit"@[1] != "fb_exit"@[1]);
    assert("fw_exit"@[3] != "fw_noco"@[3]);
    assert("fw_exit"@[1] != "fm_clea"@[1]);
    assert("gv_bertrand"@[3] != "gv_matthieu"@[3]);
    assert("gv_bertrand"@[0] != "en_francois"@[0]);
    assert("gv_bertrand"@[0] != "yh_merchant"@[0]);
    assert("gv_bertrand"@[0] != "rd_simon_p1"@[0]);
    assert("gv_bertrand"@[0] != "rd_simon_p2"@[0]);
    assert("gv_dominique"@[0] != "fb_dualliste"@[0]);
    assert("gv_dominique"@[0] != "fm_dualliste"@[0]);
    assert("gv_dominique"@[0] != "et_duolliste"@[0]);
    assert("gv_dominique"@[0] != "et_simon_tds"@[0]);
    assert("gv_matthieu"@[0] != "en_francois"@[0]);
    assert("gv_matthieu"@[0] != "yh_merchant"@[0]);
    assert("gv_matthieu"@[0] != "rd_simon_p1"@[0]);
    assert("gv_matthieu"@[0] != "rd_simon_p2"@[0]);
    assert("gv_sciel"@[0] != "fm_goblu"@[0]);
    assert("en_francois"@[0] != "yh_merchant"@[0]);
    assert("en_francois"@[0] != "rd_simon_p1"@[0]);
    assert("en_francois"@[0] != "rd_simon_p2"@[0]);
    assert("swc_lampmaster"@[0] != "lumiere_renoir"@[0]);
    assert("swc_lampmaster"@[0] != "lumiere_maelle"@[0]);
    assert("swc_lampmaster"@[0] != "wm_serpenphare"@[0]);
    assert("swc_lampmaster"@[0] != "fw_demineur_x3"@[0]);
    assert("fb_chalier"@[0] != "ms_stalact"@[0]);
    assert("fb_chalier"@[1] != "fm_gargant"@[1]);
    assert("fb_chalier"@[1] != "fm_eveques"@[1]);
    assert("fb_dualliste"@[1] != "fm_dualliste"@[1]);
    assert("fb_dualliste"@[0] != "et_duolliste"@[0]);
    assert("fb_dualliste"@[0] != "et_simon_tds"@[0]);
    assert("fb_exit"@[1] != "fw_noco"@[1]);
    assert("fb_exit"@[1] != "fm_clea"@[1]);
    assert("ms_monoco"@[0] != "ol_renoir"@[0]);
    assert("ms_monoco"@[0] != "wm_sprong"@[0]);
    assert("ms_monoco"@[0] != "as_petank"@[0]);
    assert("ms_monoco"@[0] != "yh_glaise"@[0]);
    assert("ms_monoco"@[0] != "vd_frappe"@[0]);
    assert("ms_monoco"@[0] != "vd_osquio"@[0]);
    assert("ms_stalact"@[0] != "fm_gargant"@[0]);
    assert("ms_stalact"@[0] != "fm_eveques"@[0]);
    assert("ol_chevaliers"@[0] != "sirene_sirene"@[0]);
    assert("ol_chevaliers"@[0] != "lumiere_verso"@[0]);
    assert("ol_chevaliers"@[0] != "fm_lampmaster"@[0]);
    assert("ol_renoir"@[0] != "wm_sprong"@[0]);
    assert("ol_renoir"@[0] != "as_petank"@[0]);
    assert("ol_renoir"@[0] != "yh_glaise"@[0]);
    assert("ol_renoir"@[0] != "vd_frappe"@[0]);
    assert("ol_renoir"@[0] != "vd_osquio"@[0]);
    assert("sirene_glissando"@[0] != "lumiere_start_cs"@[0]);
    assert("sirene_sirene"@[0] != "lumiere_verso"@[0]);
    assert("sirene_sirene"@[0] != "fm_lampmaster"@[0]);
    assert("monolith_feetress"@[9] != "monolith_train_cs"@[9]);
    assert("monolith_feetress"@[0] != "et_clea_unleashed"@[0]);
    assert("monolith_train_cs"@[0] != "et_clea_unleashed"@[0]);
    assert("monolith_renoir"@[0] != "sm_lancelier_x2"@[0]);
    assert("monolith_paintress"@[0] != "quest_francoisduel"@[0]);
    assert("monolith_paintress"@[0] != "lumiere_abberation"@[0]);
    assert("monolith_paintress"@[0] != "vd_balloon_gestral"@[0]);
    assert("lumiere_renoir"@[8] != "lumiere_maelle"@[8]);
    assert("lumiere_renoir"@[0] != "wm_serpenphare"@[0]);
    assert("lumiere_renoir"@[0] != "fw_demineur_x3"@[0]);
    assert("lumiere_verso"@[0] != "fm_lampmaster"@[0]);
    assert("lumiere_maelle"@[0] != "wm_serpenphare"@[0]);
    assert("lumiere_maelle"@[0] != "fw_demineur_x3"@[0]);
    assert("quest_francoisduel"@[0] != "lumiere_abberation"@[0]);
    assert("quest_francoisduel"@[0] != "vd_balloon_gestral"@[0]);
    assert("wm_cruler_lancelier_demineur"@[3] != "wm_troubadour_gault_demineur"@[3]);
    assert("wm_sprong"@[0] != "as_petank"@[0]);
    assert("wm_sprong"@[0] != "yh_glaise"@[0]);
    assert("wm_sprong"@[0] != "vd_frappe"@[0]);
    assert("wm_sprong"@[0] != "vd_osquio"@[0]);
    assert("wm_serpenphare"@[0] != "fw_demineur_x3"@[0]);
    assert("sm_abbest_volester_x2"@[0] != "ol_chromatic_danseuse"@[0]);
    assert("fw_noco"@[1] != "fm_clea"@[1]);
    assert("as_petank"@[0] != "yh_glaise"@[0]);
    assert("as_petank"@[0] != "vd_frappe"@[0]);
    assert("as_petank"@[0] != "vd_osquio"@[0]);
    assert("lumiere_abberation"@[0] != "vd_balloon_gestral"@[0]);
    assert("yh_glaise"@[0] != "vd_frappe"@[0]);
    assert("yh_glaise"@[0] != "vd_osquio"@[0]);
    assert("yh_merchant"@[0] != "rd_simon_p1"@[0]);
    assert("yh_merchant"@[0] != "rd_simon_p2"@[0]);
    assert("vd_frappe"@[3] != "vd_osquio"@[3]);
    assert("fm_dualliste"@[0] != "et_duolliste"@[0]);
    assert("fm_dualliste"@[0] != "et_simon_tds"@[0]);
    assert("fm_gargant"@[3] != "fm_eveques"@[3]);
    assert("rd_simon_p1"@[10] != "rd_simon_p2"@[10]);
    assert("et_duolliste"@[3] != "et_simon_tds"@[3]);
}

/// A name that is no field's reads as off.
pub proof fn law_unknown_setting_is_off(s: Settings, key: Seq<char>)
    requires
        key != "start"@,
        key != "split"@,
        key != "reset"@,
        key != "ng_plus"@,
        key != "act_1_start"@,
        key != "act_2_start"@,
        key != "act_3_start"@,
        key != "maelle_tutorial"@,
        key != "sm_first_lancelier"@,
        key != "sm_first_portier"@,
        key != "sm_first_volesters"@,
        key != "sm_eveque"@,
        key != "fw_curator"@,
        key != "fw_goblu"@,
        key != "fw_exit"@,
        key != "as_robust_sakapatate"@,
        key != "as_ultimate_sakapatate"@,
        key != "gv_bertrand"@,
        key != "gv_dominique"@,
        key != "gv_matthieu"@,
        key != "gv_sciel"@,
        key != "en_francois"@,
        key != "swc_lampmaster"@,
        key != "fb_chalier"@,
        key != "fb_dualliste"@,
        key != "fb_exit"@,
        key != "ms_monoco"@,
        key != "ms_stalact"@,
        key != "ol_chevaliers"@,
        key != "ol_renoir"@,
        key != "visages_mask_keeper"@,
        key != "sirene_glissando"@,
        key != "sirene_sirene"@,
        key != "monolith_feetress"@,
        key != "monolith_train_cs"@,
        key != "monolith_renoir"@,
        key != "monolith_paintress"@,
        key != "lumiere_start_cs"@,
        key != "lumiere_renoir"@,
        key != "lumiere_verso"@,
        key != "lumiere_maelle"@,
        key != "quest_francoisduel"@,
        key != "wm_cruler_lancelier_demineur"@,
        key != "wm_troubadour_gault_demineur"@,
        key != "wm_sprong"@,
        key != "wm_serpenphare"@,
        key != "sm_lancelier_x2"@,
        key != "sm_abbest_volester_x2"@,
        key != "fw_demineur_x3"@,
        key != "fw_noco"@,
        key != "fw_bruler_luster_demineur"@,
        key != "as_petank"@,
        key != "ol_chromatic_danseuse"@,
        key != "lumiere_abberation"@,
        key != "yh_glaise"@,
        key != "yh_merchant"@,
        key != "vd_balloon_gestral"@,
        key != "vd_frappe"@,
        key != "vd_osquio"@,
        key != "fm_dualliste"@,
        key != "fm_goblu"@,
        key != "fm_gargant"@,
        key != "fm_lampmaster"@,
        key != "fm_eveques"@,
        key != "fm_clea"@,
        key != "rd_simon_p1"@,
        key != "rd_simon_p2"@,
        key != "et_chromatic_lampmaster"@,
        key != "et_clea_unleashed"@,
        key != "et_duolliste"@,
        key != "et_simon_tds"@,
    ensures
        !s.setting(key),
{
}

} // verus!
