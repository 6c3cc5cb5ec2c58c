use visbuffer::ids::{CachedRenderPipelineId, DrawFunctionId, Entity, MainEntity};
use visbuffer::phase_item::{
    AlphaMask3dVisbuffer, BinnedPhaseItem, CachedRenderPipelinePhaseItem, Opaque3dVisbuffer,
    OpaqueNoLightmap3dBatchSetKey, OpaqueNoLightmap3dBinKey, PhaseItem, PhaseItemExtraIndex,
};

fn batch_set_key() -> OpaqueNoLightmap3dBatchSetKey {
    OpaqueNoLightmap3dBatchSetKey {
        pipeline: CachedRenderPipelineId(4),
        draw_function: DrawFunctionId(9),
        material_bind_group_index: Some(2),
        vertex_slab: 6,
        index_slab: Some(7),
    }
}

fn indirect() -> PhaseItemExtraIndex {
    PhaseItemExtraIndex::IndirectParametersIndex { range: 3..8, batch_set_index: Some(1) }
}

fn check<I: BinnedPhaseItem + CachedRenderPipelinePhaseItem>() -> I {
    let mut item = I::new(
        batch_set_key(),
        OpaqueNoLightmap3dBinKey { asset_id: 77 },
        (Entity(5), MainEntity(Entity(50))),
        10..14,
        indirect(),
    );
    assert_eq!(item.entity(), Entity(5));
    assert_eq!(item.main_entity(), MainEntity(Entity(50)));
    assert_eq!(item.draw_function(), DrawFunctionId(9));
    assert_eq!(item.batch_set_key(), batch_set_key());
    assert_eq!(item.bin_key(), OpaqueNoLightmap3dBinKey { asset_id: 77 });
    assert_eq!(item.cached_pipeline(), CachedRenderPipelineId(4));
    assert_eq!(item.batch_range(), &(10..14));
    assert_eq!(item.extra_index(), indirect());

    *item.batch_range_mut() = 20..21;
    assert_eq!(item.batch_range(), &(20..21));
    assert_eq!(item.extra_index(), indirect());
    assert_eq!(item.entity(), Entity(5));

    let (range, extra) = item.batch_range_and_extra_index_mut();
    range.end = 30;
    *extra = PhaseItemExtraIndex::DynamicOffset(256);
    assert_eq!(item.batch_range(), &(20..30));
    assert_eq!(item.extra_index(), PhaseItemExtraIndex::DynamicOffset(256));
    assert_eq!(item.cached_pipeline(), CachedRenderPipelineId(4));
    item
}

#[test]
fn an_opaque_item_says_what_it_was_given() {
    let item = check::<Opaque3dVisbuffer>();
    assert_eq!(
        item,
        Opaque3dVisbuffer {
            batch_set_key: batch_set_key(),
            bin_key: OpaqueNoLightmap3dBinKey { asset_id: 77 },
            representative_entity: (Entity(5), MainEntity(Entity(50))),
            batch_range: 20..30,
            extra_index: PhaseItemExtraIndex::DynamicOffset(256),
        }
    );
}

#[test]
fn an_alpha_mask_item_says_what_it_was_given() {
    let item = check::<AlphaMask3dVisbuffer>();
    assert_eq!(
        item,
        AlphaMask3dVisbuffer {
            batch_set_key: batch_set_key(),
            bin_key: OpaqueNoLightmap3dBinKey { asset_id: 77 },
            representative_entity: (Entity(5), MainEntity(Entity(50))),
            batch_range: 20..30,
            extra_index: PhaseItemExtraIndex::DynamicOffset(256),
        }
    );
}

#[test]
fn an_extra_index_clones_to_itself() {
    for index in [PhaseItemExtraIndex::Absent, PhaseItemExtraIndex::DynamicOffset(3), indirect()] {
        assert_eq!(index.clone(), index);
    }
    assert_eq!(CachedRenderPipelineId(12).id(), 12);
}
