use vstd::prelude::*;

verus! {

/// Output image formats, in selection order.
#[derive(Debug, Clone, Copy, PartialEq, Eq, Structural)]
pub enum OutputFormat {
    Webp,
    Avif,
    Jpeg,
    Png,
}

impl OutputFormat {
    /// Position of the format in `ALL`.
    pub open spec fn index(self) -> int {
        match self {
            OutputFormat::Webp => 0,
            OutputFormat::Avif => 1,
            OutputFormat::Jpeg => 2,
            OutputFormat::Png => 3,
        }
    }

    /// The format at position `i` of `ALL`.
    pub open spec fn at(i: int) -> OutputFormat {
        if i == 0 {
            OutputFormat::Webp
        } else if i == 1 {
            OutputFormat::Avif
        } else if i == 2 {
            OutputFormat::Jpeg
        } else {
            OutputFormat::Png
        }
    }

    /// The file extension written for the format.
    pub open spec fn extension_text(self) -> Seq<char> {
        match self {
            OutputFormat::Webp => "webp"@,
            OutputFormat::Avif => "avif"@,
            OutputFormat::Jpeg => "jpg"@,
            OutputFormat::Png => "png"@,
        }
    }

    /// The next format in `ALL`, wrapping around.
    pub open spec fn following(self) -> OutputFormat {
        OutputFormat::at((self.index() + 1) % 4)
    }

    /// The previous format in `ALL`, wrapping around.
    pub open spec fn preceding(self) -> OutputFormat {
        OutputFormat::at((self.index() + 3) % 4)
    }

    /// All formats, in selection order.
    pub fn all() -> (res: [OutputFormat; 4])
        ensures
            forall|i: int| 0 <= i < 4 ==> #[trigger] res@[i] == OutputFormat::at(i),
    {
        [OutputFormat::Webp, OutputFormat::Avif, OutputFormat::Jpeg, OutputFormat::Png]
    }

    pub fn extension(&self) -> (res: &'static str)
        ensures
            res@ == self.extension_text(),
    {
        match self {
            OutputFormat::Webp => "webp",
            OutputFormat::Avif => "avif",
            OutputFormat::Jpeg => "jpg",
            OutputFormat::Png => "png",
        }
    }

    fn position(self) -> (res: usize)
        ensures
            res == self.index(),
    {
        match self {
            OutputFormat::Webp => 0,
            OutputFormat::Avif => 1,
            OutputFormat::Jpeg => 2,
            OutputFormat::Png => 3,
        }
    }

    /// Next format in `ALL`, wrapping around.
    pub fn next(self) -> (res: Self)
        ensures
            res == self.following(),
    {
        let all = Self::all();
        all[(self.position() + 1) % 4]
    }

    /// Previous format in `ALL`, wrapping around.
    pub fn previous(self) -> (res: Self)
        ensures
            res == self.preceding(),
    {
        let all = Self::all();
        all[(self.position() + 4 - 1) % 4]
    }
}

/// The default output format is WebP.
impl Default for OutputFormat {
    fn default() -> (res: Self)
        ensures
            res == OutputFormat::Webp,
    {
        OutputFormat::Webp
    }
}

/// Stepping back undoes stepping forward, and the other way round.
pub proof fn next_and_previous_undo_each_other(f: OutputFormat)
    ensures
        f.following().preceding() == f,
        f.preceding().following() == f,
{
}

/// Four steps forward visit every format and come back to the start.
pub proof fn next_cycles_through_all(f: OutputFormat)
    ensures
        f.following().following().following().following() == f,
        f.following() != f,
        f.following().following() != f,
        f.following().following().following() != f,
{
}

} // verus!
