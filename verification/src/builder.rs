use vstd::prelude::*;

verus! {

/// One argument of a sampling request, as a call site hands it over:
/// either a range form, with each endpoint optional and the end either
/// exclusive or inclusive, or a bare expression. A bare expression may
/// stand for a bound value or for a generator; which one it is follows
/// from its position alone, as the rules of [`RandomBuilder::classify`]
/// lay down.
#[derive(Clone, Copy, Debug, PartialEq, Eq)]
pub enum ArgExpr<E> {
    Range { start: Option<E>, end: Option<E>, exclusive: bool },
    Bare(E),
}

/// The argument list did not match any recognized shape.
#[derive(Clone, Copy, Debug, PartialEq, Eq)]
pub struct SyntaxError;

/// The resolved reading of an argument list: which expressions play the
/// roles of `min`, `max` and generator, whether the upper bound excludes
/// its endpoint, and whether the two bounds still have to be ordered by
/// comparison at sampling time.
#[derive(Clone, Copy, Debug, PartialEq, Eq)]
pub struct RandomBuilder<E> {
    pub min: Option<E>,
    pub max: Option<E>,
    pub rng: Option<E>,
    pub exclusive: bool,
    pub cmp: bool,
}

/// The sampling entry point that a resolved argument list stands for,
/// together with the expressions handed to it. `rng` is the caller's
/// generator where one was given; otherwise a fresh thread-local one
/// is meant.
#[derive(Clone, Copy, Debug, PartialEq, Eq)]
pub enum SamplerCall<E> {
    Exclusively { min: E, max: E, rng: Option<E> },
    InclusivelyCmp { a: E, b: E, rng: Option<E> },
    Inclusively { min: E, max: E, rng: Option<E> },
    AtLeast { min: E, rng: Option<E> },
    AtMostExclusively { max: E, rng: Option<E> },
    AtMost { max: E, rng: Option<E> },
    Unbounded { rng: Option<E> },
}

impl<E> RandomBuilder<E> {
    /// The recognized shapes of an argument list, tried in this order:
    /// an empty list; a range form, alone or followed by a generator;
    /// two bare values, read as an unordered pair, with an optional
    /// trailing generator; a single bare expression, read as a generator
    /// to reuse. Everything else is refused. A range form takes
    /// precedence: a bare expression is read as a value or a generator
    /// only once it is established that it is not a range.
    pub open spec fn classify(args: Seq<ArgExpr<E>>) -> Result<RandomBuilder<E>, SyntaxError> {
        if args.len() == 0 {
            Ok(RandomBuilder { min: None, max: None, rng: None, exclusive: false, cmp: false })
        } else {
            match args[0] {
                ArgExpr::Range { start, end, exclusive } => {
                    if args.len() == 1 {
                        Ok(RandomBuilder { min: start, max: end, rng: None, exclusive, cmp: false })
                    } else if args.len() == 2 {
                        match args[1] {
                            ArgExpr::Bare(g) => Ok(
                                RandomBuilder {
                                    min: start,
                                    max: end,
                                    rng: Some(g),
                                    exclusive,
                                    cmp: false,
                                },
                            ),
                            _ => Err(SyntaxError),
                        }
                    } else {
                        Err(SyntaxError)
                    }
                },
                ArgExpr::Bare(a) => {
                    if args.len() == 1 {
                        Ok(RandomBuilder { min: None, max: None, rng: Some(a), exclusive: false, cmp: false })
                    } else {
                        match args[1] {
                            ArgExpr::Bare(b) => {
                                if args.len() == 2 {
                                    Ok(
                                        RandomBuilder {
                                            min: Some(a),
                                            max: Some(b),
                                            rng: None,
                                            exclusive: false,
                                            cmp: true,
                                        },
                                    )
                                } else if args.len() == 3 {
                                    match args[2] {
                                        ArgExpr::Bare(g) => Ok(
                                            RandomBuilder {
                                                min: Some(a),
                                                max: Some(b),
                                                rng: Some(g),
                                                exclusive: false,
                                                cmp: true,
                                            },
                                        ),
                                        _ => Err(SyntaxError),
                                    }
                                } else {
                                    Err(SyntaxError)
                                }
                            },
                            _ => Err(SyntaxError),
                        }
                    }
                },
            }
        }
    }

    /// Read an argument list into its resolved form, or refuse it.
    pub fn parse(args: Vec<ArgExpr<E>>) -> (res: Result<RandomBuilder<E>, SyntaxError>)
        ensures
            res == Self::classify(args@),
    {
        let mut rest = args;
        if rest.len() == 0 {
            return Ok(RandomBuilder { min: None, max: None, rng: None, exclusive: false, cmp: false });
        }
        let first = rest.remove(0);
        match first {
            ArgExpr::Range { start, end, exclusive } => {
                if rest.len() == 0 {
                    Ok(RandomBuilder { min: start, max: end, rng: None, exclusive, cmp: false })
                } else if rest.len() == 1 {
                    let second = rest.remove(0);
                    match second {
                        ArgExpr::Bare(g) => Ok(
                            RandomBuilder { min: start, max: end, rng: Some(g), exclusive, cmp: false },
                        ),
                        _ => Err(SyntaxError),
                    }
                } else {
                    Err(SyntaxError)
                }
            },
            ArgExpr::Bare(a) => {
                if rest.len() == 0 {
                    Ok(RandomBuilder { min: None, max: None, rng: Some(a), exclusive: false, cmp: false })
                } else {
                    let second = rest.remove(0);
                    match second {
                        ArgExpr::Bare(b) => {
                            if rest.len() == 0 {
                                Ok(
                                    RandomBuilder {
                                        min: Some(a),
                                        max: Some(b),
                                        rng: None,
                                        exclusive: false,
                                        cmp: true,
                                    },
                                )
                            } else if rest.len() == 1 {
                                let third = rest.remove(0);
                                match third {
                                    ArgExpr::Bare(g) => Ok(
                                        RandomBuilder {
                                            min: Some(a),
                                            max: Some(b),
                                            rng: Some(g),
                                            exclusive: false,
                                            cmp: true,
                                        },
                                    ),
                                    _ => Err(SyntaxError),
                                }
                            } else {
                                Err(SyntaxError)
                            }
                        },
                        _ => Err(SyntaxError),
                    }
                }
            },
        }
    }

    /// Which sampling entry point a resolved argument list selects. An
    /// exclusive upper bound wins over the unordered-pair reading; both
    /// bounds present select a two-bound call; one bound selects the
    /// matching one-bound call; none selects the natural full range.
    pub open spec fn dispatch(self) -> SamplerCall<E> {
        match self.min {
            Some(min) => match self.max {
                Some(max) => if self.exclusive {
                    SamplerCall::Exclusively { min, max, rng: self.rng }
                } else if self.cmp {
                    SamplerCall::InclusivelyCmp { a: min, b: max, rng: self.rng }
                } else {
                    SamplerCall::Inclusively { min, max, rng: self.rng }
                },
                None => SamplerCall::AtLeast { min, rng: self.rng },
            },
            None => match self.max {
                Some(max) => if self.exclusive {
                    SamplerCall::AtMostExclusively { max, rng: self.rng }
                } else {
                    SamplerCall::AtMost { max, rng: self.rng }
                },
                None => SamplerCall::Unbounded { rng: self.rng },
            },
        }
    }

    /// Turn a resolved argument list into the sampling call it selects.
    pub fn expand(self) -> (c: SamplerCall<E>)
        ensures
            c == self.dispatch(),
    {
        match self.min {
            Some(min) => match self.max {
                Some(max) => if self.exclusive {
                    SamplerCall::Exclusively { min, max, rng: self.rng }
                } else if self.cmp {
                    SamplerCall::InclusivelyCmp { a: min, b: max, rng: self.rng }
                } else {
                    SamplerCall::Inclusively { min, max, rng: self.rng }
                },
                None => SamplerCall::AtLeast { min, rng: self.rng },
            },
            None => match self.max {
                Some(max) => if self.exclusive {
                    SamplerCall::AtMostExclusively { max, rng: self.rng }
                } else {
                    SamplerCall::AtMost { max, rng: self.rng }
                },
                None => SamplerCall::Unbounded { rng: self.rng },
            },
        }
    }
}

/// The resolved reading of a buffer-filling argument list: the expression
/// for the buffer to fill, then the reading of the remaining arguments.
#[derive(Clone, Copy, Debug, PartialEq, Eq)]
pub struct RandomFillBuilder<E> {
    pub out: E,
    pub rb: RandomBuilder<E>,
}

/// The buffer-filling counterpart of [`SamplerCall`]: the buffer
/// expression together with the selected sampling call.
#[derive(Clone, Copy, Debug, PartialEq, Eq)]
pub struct FillCall<E> {
    pub out: E,
    pub call: SamplerCall<E>,
}

impl<E> RandomFillBuilder<E> {
    /// The recognized shapes of a buffer-filling argument list: a bare
    /// expression for the buffer to fill, then any shape that
    /// [`RandomBuilder::classify`] recognizes.
    pub open spec fn classify(args: Seq<ArgExpr<E>>) -> Result<RandomFillBuilder<E>, SyntaxError> {
        if args.len() == 0 {
            Err(SyntaxError)
        } else {
            match args[0] {
                ArgExpr::Bare(out) => match RandomBuilder::classify(
                    args.subrange(1, args.len() as int),
                ) {
                    Ok(rb) => Ok(RandomFillBuilder { out, rb }),
                    Err(e) => Err(e),
                },
                _ => Err(SyntaxError),
            }
        }
    }

    /// Read a buffer-filling argument list into its resolved form, or
    /// refuse it.
    pub fn parse(args: Vec<ArgExpr<E>>) -> (res: Result<RandomFillBuilder<E>, SyntaxError>)
        ensures
            res == Self::classify(args@),
    {
        let mut rest = args;
        if rest.len() == 0 {
            return Err(SyntaxError);
        }
        let first = rest.remove(0);
        match first {
            ArgExpr::Bare(out) => match RandomBuilder::parse(rest) {
                Ok(rb) => Ok(RandomFillBuilder { out, rb }),
                Err(e) => Err(e),
            },
            _ => Err(SyntaxError),
        }
    }

    /// Which filling call a resolved argument list selects: the buffer
    /// expression beside the sampling call its remaining arguments select.
    pub open spec fn dispatch(self) -> FillCall<E> {
        FillCall { out: self.out, call: self.rb.dispatch() }
    }

    /// Turn a resolved buffer-filling argument list into the filling call
    /// it selects.
    pub fn expand(self) -> (c: FillCall<E>)
        ensures
            c == self.dispatch(),
    {
        FillCall { out: self.out, call: self.rb.expand() }
    }
}

} // verus!
