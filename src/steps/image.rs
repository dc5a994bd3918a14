use vstd::prelude::*;
use crate::layout::{join, path_join};
use crate::plan::{
    mode_for,
    mode_of,
    steps_view,
    Action,
    ActionModel,
    ImageModel,
    ImageSpec,
    Stage,
    StagePlan,
    Step,
    VolumeFile,
};

verus! {

/// Bytes in a mebibyte.
pub const MIB: u64 = 1048576;

/// Options of image assembly: where the image goes, its size, and the host files of
/// the bootloader, the OS's init program and the kernel.
#[derive(Debug)]
pub struct BuildImgArgs {
    pub img_dir: String,
    pub img_name: String,
    pub bootx64_efi_source_path: String,
    pub init_elf_source_path: String,
    pub kernel_elf_source_path: String,
    pub image_size_mib: u64,
    pub verbose: bool,
    pub dry_run: bool,
}

/// The directories inside the volume, each after its parent.
pub open spec fn volume_dirs() -> Seq<Seq<char>> {
    seq!["EFI"@, "EFI/BOOT"@, "kernel"@]
}

/// The image `<dir>/<name>` of `mib` MiB holding exactly `/EFI/BOOT/BOOTX64.EFI`,
/// `/kernel/init.elf` and `/kernel/kernel.elf`, copied from the three host files.
pub open spec fn image_layout(
    dir: Seq<char>,
    name: Seq<char>,
    mib: nat,
    efi: Seq<char>,
    init: Seq<char>,
    kernel: Seq<char>,
) -> ImageModel {
    ImageModel {
        path: path_join(dir, name),
        size_bytes: mib * 1048576,
        dirs: volume_dirs(),
        files: seq![
            ("EFI/BOOT/BOOTX64.EFI"@, efi),
            ("kernel/init.elf"@, init),
            ("kernel/kernel.elf"@, kernel),
        ],
    }
}

/// The image that `args` describe.
pub open spec fn image_model(args: BuildImgArgs) -> ImageModel {
    image_layout(
        args.img_dir@,
        args.img_name@,
        args.image_size_mib as nat,
        args.bootx64_efi_source_path@,
        args.init_elf_source_path@,
        args.kernel_elf_source_path@,
    )
}

/// Image assembly into `dir`: create the directory, then build the image.
pub open spec fn image_steps_of(dir: Seq<char>, image: ImageModel) -> Seq<(Stage, ActionModel)> {
    seq![
        (Stage::Image, ActionModel::CreateDir(dir)),
        (Stage::Image, ActionModel::AssembleImage(image)),
    ]
}

/// Image assembly as `args` describe it.
pub open spec fn image_steps(args: BuildImgArgs) -> Seq<(Stage, ActionModel)> {
    image_steps_of(args.img_dir@, image_model(args))
}

/// Plans image assembly; in a dry run the steps are reported and none is carried out.
pub fn build_fat_img(args: &BuildImgArgs) -> (r: StagePlan)
    requires
        args.image_size_mib as nat * 1048576 <= u64::MAX,
    ensures
        r.mode == mode_of(args.dry_run),
        r.steps_model() == image_steps(*args),
{
    let size_bytes = args.image_size_mib * MIB;
    let mut dirs: Vec<String> = Vec::new();
    dirs.push(String::from_str("EFI"));
    dirs.push(String::from_str("EFI/BOOT"));
    dirs.push(String::from_str("kernel"));
    let mut files: Vec<VolumeFile> = Vec::new();
    files.push(
        VolumeFile {
            volume_path: String::from_str("EFI/BOOT/BOOTX64.EFI"),
            source: args.bootx64_efi_source_path.clone(),
        },
    );
    files.push(
        VolumeFile {
            volume_path: String::from_str("kernel/init.elf"),
            source: args.init_elf_source_path.clone(),
        },
    );
    files.push(
        VolumeFile {
            volume_path: String::from_str("kernel/kernel.elf"),
            source: args.kernel_elf_source_path.clone(),
        },
    );
    let image = ImageSpec { path: join(&args.img_dir, args.img_name.as_str()), size_bytes, dirs, files };
    assert(image@ =~= image_model(*args)) by {
        assert(image@.dirs =~= volume_dirs());
        assert(image@.files =~= image_model(*args).files);
    }
    let mut steps: Vec<Step> = Vec::new();
    steps.push(Step { stage: Stage::Image, action: Action::CreateDir(args.img_dir.clone()) });
    steps.push(Step { stage: Stage::Image, action: Action::AssembleImage(image) });
    assert(steps_view(steps@) =~= image_steps(*args));
    StagePlan { mode: mode_for(args.dry_run), steps }
}

/// One operation of building a disk image.
#[derive(Debug)]
pub enum ImageOp {
    /// Create the image file, or truncate it, and extend it with zeros to the length.
    Create { path: String, size_bytes: u64 },
    /// Format the whole file as one FAT32 volume and mount it.
    Format,
    /// Open the directory at this path inside the volume, creating it where absent.
    EnsureDir(String),
    /// Remove any entry at `path` inside the volume, then write the bytes of the host
    /// file `source` there.
    Replace { path: String, source: String },
    /// Flush every pending write and unmount the volume.
    Unmount,
}

pub enum ImageOpModel {
    Create(Seq<char>, nat),
    Format,
    EnsureDir(Seq<char>),
    Replace(Seq<char>, Seq<char>),
    Unmount,
}

impl View for ImageOp {
    type V = ImageOpModel;

    open spec fn view(&self) -> ImageOpModel {
        match self {
            ImageOp::Create { path, size_bytes } => ImageOpModel::Create(path@, *size_bytes as nat),
            ImageOp::Format => ImageOpModel::Format,
            ImageOp::EnsureDir(p) => ImageOpModel::EnsureDir(p@),
            ImageOp::Replace { path, source } => ImageOpModel::Replace(path@, source@),
            ImageOp::Unmount => ImageOpModel::Unmount,
        }
    }
}

/// The operations that build `m`, in order: a fresh zero-filled file, the volume, each
/// directory, each file, and the final flush.
pub open spec fn image_op_seq(m: ImageModel) -> Seq<ImageOpModel> {
    seq![ImageOpModel::Create(m.path, m.size_bytes), ImageOpModel::Format] + m.dirs.map_values(
        |d: Seq<char>| ImageOpModel::EnsureDir(d),
    ) + m.files.map_values(|f: (Seq<char>, Seq<char>)| ImageOpModel::Replace(f.0, f.1)) + seq![
        ImageOpModel::Unmount,
    ]
}

/// The operations that build the image `img`.
pub fn image_ops(img: &ImageSpec) -> (r: Vec<ImageOp>)
    ensures
        r@.map_values(|o: ImageOp| o@) == image_op_seq(img@),
{
    let mut ops: Vec<ImageOp> = Vec::new();
    ops.push(ImageOp::Create { path: img.path.clone(), size_bytes: img.size_bytes });
    ops.push(ImageOp::Format);
    let nd = img.dirs.len();
    let mut i: usize = 0;
    while i < nd
        invariant
            nd == img.dirs@.len(),
            0 <= i <= nd,
            ops@.len() == 2 + i,
            ops@[0]@ == ImageOpModel::Create(img.path@, img.size_bytes as nat),
            ops@[1]@ == ImageOpModel::Format,
            forall|j: int| 0 <= j < i ==> #[trigger] ops@[2 + j]@ == ImageOpModel::EnsureDir(img.dirs@[j]@),
        decreases nd - i,
    {
        ops.push(ImageOp::EnsureDir(img.dirs[i].clone()));
        i = i + 1;
    }
    let nf = img.files.len();
    let mut k: usize = 0;
    while k < nf
        invariant
            nd == img.dirs@.len(),
            nf == img.files@.len(),
            0 <= k <= nf,
            ops@.len() == 2 + nd + k,
            ops@[0]@ == ImageOpModel::Create(img.path@, img.size_bytes as nat),
            ops@[1]@ == ImageOpModel::Format,
            forall|j: int| 0 <= j < nd ==> #[trigger] ops@[2 + j]@ == ImageOpModel::EnsureDir(img.dirs@[j]@),
            forall|j: int|
                0 <= j < k ==> #[trigger] ops@[2 + nd + j]@ == ImageOpModel::Replace(
                    img.files@[j].volume_path@,
                    img.files@[j].source@,
                ),
        decreases nf - k,
    {
        let f = &img.files[k];
        ops.push(ImageOp::Replace { path: f.volume_path.clone(), source: f.source.clone() });
        k = k + 1;
    }
    ops.push(ImageOp::Unmount);
    let ghost want = image_op_seq(img@);
    let ghost got = ops@.map_values(|o: ImageOp| o@);
    assert(got.len() == want.len());
    assert forall|j: int| 0 <= j < got.len() implies got[j] == want[j] by {
        if 2 <= j < 2 + nd {
            assert(ops@[2 + (j - 2)]@ == ImageOpModel::EnsureDir(img.dirs@[j - 2]@));
        } else if 2 + nd <= j < 2 + nd + nf {
            assert(ops@[2 + nd + (j - 2 - nd)]@ == ImageOpModel::Replace(
                img.files@[j - 2 - nd].volume_path@,
                img.files@[j - 2 - nd].source@,
            ));
        }
    }
    assert(got =~= want);
    ops
}

/// The path `p` inside the volume is the directory `d` or lies under it.
pub open spec fn lies_under(p: Seq<char>, d: Seq<char>) -> bool {
    p == d || (p.len() > d.len() && p.subrange(0, d.len() as int + 1) == d + seq!['/'])
}

/// An image holds its three files at distinct paths, and every directory and file of
/// it lies under `EFI` or `kernel`: no other top-level entry is made.
pub proof fn lemma_volume_entries(
    dir: Seq<char>,
    name: Seq<char>,
    mib: nat,
    efi: Seq<char>,
    init: Seq<char>,
    kernel: Seq<char>,
)
    ensures
        ({
            let m = image_layout(dir, name, mib, efi, init, kernel);
            &&& m.files.len() == 3
            &&& forall|i: int, j: int|
                0 <= i < j < 3 ==> #[trigger] m.files[i].0 != #[trigger] m.files[j].0
            &&& forall|i: int|
                0 <= i < m.dirs.len() ==> lies_under(#[trigger] m.dirs[i], "EFI"@) || lies_under(
                    m.dirs[i],
                    "kernel"@,
                )
            &&& forall|i: int|
                0 <= i < 3 ==> lies_under(#[trigger] m.files[i].0, "EFI"@) || lies_under(
                    m.files[i].0,
                    "kernel"@,
                )
        }),
{
    reveal_strlit("EFI");
    reveal_strlit("kernel");
    reveal_strlit("EFI/BOOT");
    reveal_strlit("EFI/BOOT/BOOTX64.EFI");
    reveal_strlit("kernel/init.elf");
    reveal_strlit("kernel/kernel.elf");
    let m = image_layout(dir, name, mib, efi, init, kernel);
    assert("EFI/BOOT"@.subrange(0, 4) =~= "EFI"@ + seq!['/']);
    assert("EFI/BOOT/BOOTX64.EFI"@.subrange(0, 4) =~= "EFI"@ + seq!['/']);
    assert("kernel/init.elf"@.subrange(0, 7) =~= "kernel"@ + seq!['/']);
    assert("kernel/kernel.elf"@.subrange(0, 7) =~= "kernel"@ + seq!['/']);
    assert("EFI/BOOT/BOOTX64.EFI"@[0] != "kernel/init.elf"@[0]);
    assert("EFI/BOOT/BOOTX64.EFI"@[0] != "kernel/kernel.elf"@[0]);
    assert("kernel/init.elf"@[7] != "kernel/kernel.elf"@[7]);
}

/// Every build of an image begins by recreating its file, zero-filled at full size,
/// then formats it before touching any entry, writes each file by replacement, and
/// ends with the flush: nothing of an earlier image on that path is read or kept.
pub proof fn lemma_image_build_starts_fresh(m: ImageModel)
    ensures
        ({
            let ops = image_op_seq(m);
            &&& ops[0] == ImageOpModel::Create(m.path, m.size_bytes)
            &&& ops[1] == ImageOpModel::Format
            &&& ops.last() == ImageOpModel::Unmount
            &&& forall|i: int|
                0 <= i < m.files.len() ==> ops[2 + m.dirs.len() + i] == ImageOpModel::Replace(
                    #[trigger] m.files[i].0,
                    m.files[i].1,
                )
            &&& forall|j: int|
                2 <= j < ops.len() ==> #[trigger] ops[j] != ImageOpModel::Create(m.path, m.size_bytes)
                    && ops[j] != ImageOpModel::Format
        }),
{
    let ops = image_op_seq(m);
    let nd = m.dirs.len() as int;
    let nf = m.files.len() as int;
    assert(ops.len() == 3 + nd + nf);
    assert forall|i: int| 0 <= i < nf implies ops[2 + nd + i] == ImageOpModel::Replace(
        #[trigger] m.files[i].0,
        m.files[i].1,
    ) by {}
    assert forall|j: int| 2 <= j < ops.len() implies #[trigger] ops[j] != ImageOpModel::Create(
        m.path,
        m.size_bytes,
    ) && ops[j] != ImageOpModel::Format by {
        if j < 2 + nd {
        } else if j < 2 + nd + nf {
        }
    }
}

} // verus!
