use vstd::prelude::*;

use crate::errors::ErrorsCode;
use crate::state::CurveConfiguration;

verus! {

impl CurveConfiguration {
    /// Marks the curve graduated, closing it to trading for good.  The
    /// decision of *when* a curve graduates — for instance a real-reserve
    /// threshold — is an external policy trigger, deliberately left to the
    /// hosting layer; this is the one entry point through which that policy
    /// acts on the state.  The flag is one-way: nothing in this library ever
    /// clears it.
    pub fn graduate(&mut self)
        ensures
            *final(self) == (CurveConfiguration { is_graduated: true, ..*old(self) }),
    {
        self.is_graduated = true;
    }

    /// Settles a graduated curve: reports the entirety of the real token
    /// reserve for transfer from curve custody to the owner's custody, then
    /// zeroes both real reserves.  Owner authorization is the custody
    /// layer's duty and must be established before this is called.
    ///
    /// This is a one-shot settlement: the curve stays graduated, so no
    /// further trading is possible, and a repeat call finds nothing left to
    /// transfer and reports zero.
    pub fn withdraw(&mut self) -> (result: Result<u64, ErrorsCode>)
        ensures
            match result {
                Ok(token_amount) => {
                    &&& old(self).is_graduated
                    &&& token_amount == old(self).real_token_reserve
                    &&& *final(self) == (CurveConfiguration {
                        real_token_reserve: 0,
                        real_base_reserve: 0,
                        ..*old(self)
                    })
                },
                Err(e) => {
                    &&& e == ErrorsCode::NotGraduatedYet
                    &&& !old(self).is_graduated
                    &&& *final(self) == *old(self)
                },
            },
    {
        if self.is_graduated {
            let token_amount = self.real_token_reserve;
            self.real_token_reserve = 0;
            self.real_base_reserve = 0;
            Ok(token_amount)
        } else {
            Err(ErrorsCode::NotGraduatedYet)
        }
    }
}

} // verus!
