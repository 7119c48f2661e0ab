use rendy_lifecycle::escape::{Escape, Terminal};
use rendy_lifecycle::image::{
    CreateInfo, Extent3D, Format, Image, ImageCreateFlags, ImageTiling, Inner, Kind, Layout,
    SampleCountFlags, SharingMode, UsageFlags,
};
use rendy_lifecycle::memory::MemoryBlock;

fn info_2d() -> CreateInfo {
    CreateInfo {
        kind: Kind::D2,
        format: Format(37),
        extent: Extent3D { width: 256, height: 256, depth: 1 },
        mips: 1,
        array: 1,
        samples: SampleCountFlags::from_bits(1).unwrap(),
        tiling: ImageTiling::Optimal,
        usage: UsageFlags::from_bits(4).unwrap(),
        sharing: SharingMode::Exclusive,
        flags: ImageCreateFlags::empty(),
    }
}

#[test]
fn escaped_image_posts_once_on_release() {
    let info = info_2d();
    assert!(info.is_valid());
    let mut terminal: Terminal<Inner<&str, u64>> = Terminal::new();
    let image = Image::new(MemoryBlock::new("heap", 64, 4096), 77u64, info);
    assert_eq!(*image.info(), info);
    assert_eq!(*image.raw(), 77);
    assert_eq!(image.block().size(), 4096);
    assert_eq!(terminal.len(), 0);
    image.release(&mut terminal);
    assert_eq!(terminal.len(), 1);
    let posts = terminal.drain();
    assert_eq!(terminal.len(), 0);
    assert_eq!(posts.len(), 1);
    for inner in posts {
        let (block, raw) = inner.dispose();
        assert_eq!(raw, 77);
        assert_eq!(*block.memory(), "heap");
        assert_eq!(block.offset(), 64);
    }
}

#[test]
fn escape_posts_in_release_order() {
    let mut terminal: Terminal<u32> = Terminal::new();
    let a = Escape::escape(1u32);
    let b = Escape::escape(2u32);
    assert_eq!(*a.inner_ref(), 1);
    b.release(&mut terminal);
    a.release(&mut terminal);
    assert_eq!(terminal.drain(), vec![2, 1]);
    assert!(terminal.drain().is_empty());
}

#[test]
fn create_info_validity() {
    let mut info = info_2d();
    assert!(info.is_valid());
    info.extent.depth = 2;
    assert!(!info.is_valid());
    info.kind = Kind::D3;
    assert!(info.is_valid());
    info.kind = Kind::D1;
    info.extent = Extent3D { width: 16, height: 1, depth: 1 };
    assert!(info.is_valid());
    info.extent.height = 4;
    assert!(!info.is_valid());
    info.extent.height = 1;
    info.samples = SampleCountFlags::from_bits(64).unwrap();
    assert!(info.is_valid());
    info.samples = SampleCountFlags::from_bits(3).unwrap();
    assert!(!info.is_valid());
    info.samples = SampleCountFlags::from_bits(0).unwrap();
    assert!(!info.is_valid());
}

#[test]
fn flag_sets_reject_unknown_bits() {
    assert!(SampleCountFlags::from_bits(127).is_some());
    assert!(SampleCountFlags::from_bits(128).is_none());
    assert_eq!(UsageFlags::from_bits(255).unwrap().bits(), 255);
    assert!(UsageFlags::from_bits(256).is_none());
    assert_eq!(ImageCreateFlags::from_bits(0x38).unwrap().bits(), 0x38);
    assert_eq!(ImageCreateFlags::from_bits(0x10).unwrap().bits(), 0x10);
    assert!(ImageCreateFlags::from_bits(0x1).is_none());
    assert!(ImageCreateFlags::from_bits(0x40).is_none());
    assert_eq!(ImageCreateFlags::empty().bits(), 0);
}

#[test]
fn layout_and_tiling_codes() {
    assert_eq!(Layout::Undefined.as_raw(), 0);
    assert_eq!(Layout::General.as_raw(), 1);
    assert_eq!(Layout::ShaderReadOnlyOptimal.as_raw(), 5);
    assert_eq!(Layout::Preinitialized.as_raw(), 8);
    assert_eq!(Layout::DepthReadOnlyStencilAttachmentOptimal.as_raw(), 1000117000);
    assert_eq!(Layout::DepthAttachmentStencilReadOnlyOptimal.as_raw(), 1000117001);
    assert_eq!(Layout::PresentSrc.as_raw(), 1000001002);
    assert_eq!(Layout::SharedPresentSrc.as_raw(), 1000111000);
    assert_eq!(ImageTiling::Optimal.as_raw(), 0);
    assert_eq!(ImageTiling::Linear.as_raw(), 1);
}
